use mail_tm_rs::accounts::account_from_json;
use mail_tm_rs::accounts::account_to_json;
use mail_tm_rs::accounts::decode_account;
use mail_tm_rs::accounts::Account;
use mail_tm_rs::domains::decode_domains;
use mail_tm_rs::domains::Domain;
use mail_tm_rs::error::Error;
use mail_tm_rs::http::decode_empty;
use mail_tm_rs::hydra::split_envelope;
use mail_tm_rs::json::Json;
use mail_tm_rs::messages::decode_message;
use mail_tm_rs::messages::decode_messages;
use mail_tm_rs::messages::message_from_json;
use mail_tm_rs::messages::message_to_json;
use mail_tm_rs::messages::messages_to_json;
use mail_tm_rs::messages::From;
use mail_tm_rs::messages::Message;
use mail_tm_rs::messages::To;
use mail_tm_rs::token::decode_token;
use mail_tm_rs::token::Token;

const ACCOUNT_FIXTURE: &str = r#"{"@context":"/contexts/Account","@id":"/accounts/acc1","@type":"Account","id":"acc1","address":"abc@example.com","quota":40000000,"used":10,"isDisabled":false,"createdAt":"2024-01-01T00:00:00+00:00","updatedAt":"2024-01-02T00:00:00+00:00"}"#;

fn expected_account() -> Account {
    Account {
        address: "abc@example.com".to_string(),
        password: None,
        quota: 40000000,
        used: 10,
        is_disabled: false,
        created_at: Json::Str("2024-01-01T00:00:00+00:00".to_string()),
        updated_at: Json::Str("2024-01-02T00:00:00+00:00".to_string()),
        context: Some("/contexts/Account".to_string()),
        at_id: Some("/accounts/acc1".to_string()),
        type_field: Some("Account".to_string()),
        id: Some("acc1".to_string()),
    }
}

const MESSAGE_FIXTURE: &str = r#"{"@context":"/contexts/Message","@id":"/messages/m1","@type":"Message","id":"m1","account_id":"acc1","msgid":"<x@y>","from":{"address":"sender@example.org","name":"Sender"},"to":[{"address":"abc@example.com","name":""}],"cc":[],"bcc":[],"subject":"Hi","seen":false,"flagged":false,"verification_results":[],"retention":true,"retention_date":1700000000,"text":"hello","html":["<p>hello</p>"],"has_attachments":false,"attachments":[],"download_url":"/messages/m1/download","size":12,"created_at":"2024-01-01","updated_at":"2024-01-02"}"#;

fn expected_message() -> Message {
    Message {
        context: "/contexts/Message".to_string(),
        id: "/messages/m1".to_string(),
        type_field: "Message".to_string(),
        id2: "m1".to_string(),
        account_id: "acc1".to_string(),
        msg_id: "<x@y>".to_string(),
        from: From { address: "sender@example.org".to_string(), name: "Sender".to_string() },
        to: vec![To { address: "abc@example.com".to_string(), name: "".to_string() }],
        cc: vec![],
        bcc: vec![],
        subject: "Hi".to_string(),
        seen: false,
        flagged: false,
        verification_results: vec![],
        retention: true,
        retention_date: 1700000000,
        text: "hello".to_string(),
        html: vec!["<p>hello</p>".to_string()],
        has_attachments: false,
        attachments: vec![],
        download_url: "/messages/m1/download".to_string(),
        size: 12,
        created_at: "2024-01-01".to_string(),
        updated_at: "2024-01-02".to_string(),
    }
}

#[test]
fn a_404_yields_a_status_error_not_a_decode_attempt() {
    match decode_account(404, "not found".to_string()) {
        Err(Error::Status(code, body)) => {
            assert_eq!(code, 404);
            assert_eq!(body, "not found");
        }
        _ => panic!("expected a status error"),
    }
}

#[test]
fn every_non_success_status_is_surfaced_with_its_body() {
    match decode_messages(500, "boom".to_string()) {
        Err(Error::Status(code, body)) => {
            assert_eq!(code, 500);
            assert_eq!(body, "boom");
        }
        _ => panic!("expected a status error"),
    }
    match decode_empty(403, "forbidden") {
        Err(Error::Status(code, body)) => {
            assert_eq!(code, 403);
            assert_eq!(body, "forbidden");
        }
        _ => panic!("expected a status error"),
    }
}

#[test]
fn a_missing_required_field_yields_a_decode_error_with_the_raw_body() {
    let body = r#"{"address":"abc@example.com","quota":1}"#;
    match decode_account(200, body.to_string()) {
        Err(e) => {
            assert_eq!(e.raw_body().map(|b| b.as_str()), Some(body));
            assert!(e.status_code().is_none());
            match e {
                Error::Decode(_, raw) => assert_eq!(raw, body),
                _ => panic!("expected a decode error"),
            }
        }
        Ok(_) => panic!("expected a decode error"),
    }
}

#[test]
fn a_body_that_is_not_json_yields_a_decode_error() {
    let body = "{not json";
    match decode_token(200, body.to_string()) {
        Err(Error::Decode(_, raw)) => assert_eq!(raw, body),
        _ => panic!("expected a decode error"),
    }
}

#[test]
fn an_account_fixture_decodes_to_the_expected_struct() {
    let account = decode_account(200, ACCOUNT_FIXTURE.to_string()).unwrap();
    assert_eq!(account, expected_account());
}

#[test]
fn an_account_round_trips_through_json() {
    let encoded = account_to_json(expected_account());
    assert_eq!(account_from_json(encoded), Some(expected_account()));
}

#[test]
fn a_message_fixture_decodes_to_the_expected_struct() {
    let message = decode_message(200, MESSAGE_FIXTURE.to_string()).unwrap();
    assert_eq!(message, expected_message());
}

#[test]
fn a_message_round_trips_through_json() {
    let encoded = message_to_json(expected_message());
    assert_eq!(message_from_json(encoded), Some(expected_message()));
}

#[test]
fn a_message_page_round_trips_through_json() {
    let page = decode_messages(
        200,
        format!(
            r#"{{"hydra:member":[{}],"hydra:totalItems":3,"hydra:view":{{"@id":"/messages?page=1","@type":"hydra:PartialCollectionView"}}}}"#,
            MESSAGE_FIXTURE
        ),
    )
    .unwrap();
    assert_eq!(page.members, vec![expected_message()]);
    assert_eq!(page.total_items, 3);
    {
        let view = page.view.as_ref().unwrap();
        assert_eq!(view.id.as_deref(), Some("/messages?page=1"));
        assert_eq!(view.first, None);
    }
    let encoded = messages_to_json(page);
    let (items, total, view, search) = split_envelope(encoded).unwrap();
    assert_eq!(total, 3);
    assert!(search.is_none());
    assert_eq!(view.unwrap().id.as_deref(), Some("/messages?page=1"));
    let mut decoded = Vec::new();
    for item in items {
        decoded.push(message_from_json(item).unwrap());
    }
    assert_eq!(decoded, vec![expected_message()]);
}

#[test]
fn domains_keep_their_order_and_the_count_bound() {
    let body = r#"{"hydra:member":[
        {"@id":"/domains/d1","@type":"Domain","@context":"/contexts/Domain","id":"d1","domain":"a.com","isActive":true,"createdAt":"c1","updatedAt":"u1"},
        {"@id":"/domains/d2","@type":"Domain","id":"d2","domain":"b.org","isActive":false,"createdAt":"c2","updatedAt":"u2"}
    ],"hydra:totalItems":5}"#;
    let page = decode_domains(200, body.to_string()).unwrap();
    assert_eq!(page.total_items, 5);
    assert!(page.members.len() as i64 <= page.total_items);
    let names = page.as_list();
    assert_eq!(names, vec!["a.com".to_string(), "b.org".to_string()]);
    let first: &Domain = &page.members[0];
    assert_eq!(first.id2, "d1");
    assert!(first.is_active);
    assert_eq!(first.context.as_deref(), Some("/contexts/Domain"));
    assert_eq!(page.members[1].context, None);
}

#[test]
fn a_page_with_more_members_than_the_total_is_rejected() {
    let body = r#"{"hydra:member":[
        {"@id":"/domains/d1","@type":"Domain","id":"d1","domain":"a.com","isActive":true,"createdAt":"c1","updatedAt":"u1"}
    ],"hydra:totalItems":0}"#;
    match decode_domains(200, body.to_string()) {
        Err(Error::Decode(_, raw)) => assert_eq!(raw, body),
        _ => panic!("expected a decode error"),
    }
}

#[test]
fn a_token_fixture_decodes_to_the_expected_struct() {
    let token = decode_token(200, r#"{"token":"TOK","id":"acc1"}"#.to_string()).unwrap();
    assert_eq!(token, Token { token: "TOK".to_string(), id: "acc1".to_string() });
}

#[test]
fn delete_style_responses_need_only_the_status() {
    assert!(decode_empty(204, "").is_ok());
    assert!(decode_empty(200, "ignored").is_ok());
}

#[test]
fn a_null_optional_field_reads_as_absent() {
    let body = r#"{"@context":null,"address":"a@b.c","quota":1,"used":0,"isDisabled":false,"createdAt":"t","updatedAt":"t"}"#;
    let account = decode_account(200, body.to_string()).unwrap();
    assert_eq!(account.context, None);
    assert_eq!(account.id, None);
}

#[test]
fn a_password_in_a_response_round_trips() {
    let body = r#"{"address":"a@b.c","password":"pw","quota":1,"used":0,"isDisabled":false,"createdAt":"t","updatedAt":"t"}"#;
    let account = decode_account(200, body.to_string()).unwrap();
    assert_eq!(account.password.as_deref(), Some("pw"));
    let encoded = account_to_json(account);
    let again = account_from_json(encoded).unwrap();
    assert_eq!(again.password.as_deref(), Some("pw"));
}

#[test]
fn a_full_pagination_descriptor_is_read() {
    let body = r#"{"hydra:member":[],"hydra:totalItems":120,
        "hydra:view":{"@id":"/messages?page=2","@type":"hydra:PartialCollectionView",
            "hydra:first":"/messages?page=1","hydra:last":"/messages?page=4",
            "hydra:next":"/messages?page=3","hydra:previous":"/messages?page=1"},
        "hydra:search":{"@type":"hydra:IriTemplate","hydra:template":"/messages{?page}"}}"#;
    let page = decode_messages(200, body.to_string()).unwrap();
    let view = page.view.as_ref().unwrap();
    assert_eq!(view.first.as_deref(), Some("/messages?page=1"));
    assert_eq!(view.last.as_deref(), Some("/messages?page=4"));
    assert_eq!(view.next.as_deref(), Some("/messages?page=3"));
    assert_eq!(view.previous.as_deref(), Some("/messages?page=1"));
    let search = page.search.as_ref().unwrap();
    assert_eq!(search.template.as_deref(), Some("/messages{?page}"));
    assert!(search.mapping.is_none());
}

#[test]
fn a_mis_shaped_pagination_descriptor_is_a_decode_error() {
    let body = r#"{"hydra:member":[],"hydra:totalItems":0,"hydra:view":5}"#;
    match decode_messages(200, body.to_string()) {
        Err(Error::Decode(_, raw)) => assert_eq!(raw, body),
        _ => panic!("expected a decode error"),
    }
}

#[test]
fn an_empty_page_is_well_formed() {
    let page = decode_domains(200, r#"{"hydra:member":[],"hydra:totalItems":0}"#.to_string())
        .unwrap();
    assert_eq!(page.total_items, 0);
    assert!(page.members.is_empty());
    assert!(page.as_list().is_empty());
}
