use mail_tm_rs::create_account;
use mail_tm_rs::delete_account;
use mail_tm_rs::delete_message;
use mail_tm_rs::domains;
use mail_tm_rs::error::Error;
use mail_tm_rs::get_account;
use mail_tm_rs::get_message;
use mail_tm_rs::http::Method;
use mail_tm_rs::list_messages;
use mail_tm_rs::me;
use mail_tm_rs::patch;
use mail_tm_rs::token;
use mail_tm_rs::update_token;
use mail_tm_rs::user::User;

fn test_user() -> User {
    User {
        id: "AbC".to_string(),
        domain: "Example.COM".to_string(),
        password: "pw".to_string(),
        email_token: "T0k3n".to_string(),
    }
}

fn header(headers: &[(String, String)], name: &str) -> Option<String> {
    headers.iter().find(|(k, _)| k == name).map(|(_, v)| v.clone())
}

#[test]
fn create_account_preserves_address_case() {
    let q = create_account(&test_user()).unwrap();
    assert_eq!(q.method, Method::Post);
    assert_eq!(q.url, "https://api.mail.tm/accounts");
    assert_eq!(
        q.body.as_deref(),
        Some(r#"{"address":"AbC@Example.COM","password":"pw"}"#)
    );
}

#[test]
fn create_account_sets_default_headers() {
    let q = create_account(&test_user()).unwrap();
    assert_eq!(q.headers.len(), 4);
    assert_eq!(header(&q.headers, "User-Agent").as_deref(), Some("Isahc; mail-tm-rs"));
    assert_eq!(header(&q.headers, "Origin").as_deref(), Some("https://mail.tm"));
    assert_eq!(header(&q.headers, "TE").as_deref(), Some("Trailers"));
    assert_eq!(
        header(&q.headers, "Content-Type").as_deref(),
        Some("application/json;charset=utf-8")
    );
}

#[test]
fn token_lowercases_the_address() {
    let q = token(&test_user()).unwrap();
    assert_eq!(q.method, Method::Post);
    assert_eq!(q.url, "https://api.mail.tm/token");
    assert_eq!(
        q.body.as_deref(),
        Some(r#"{"address":"abc@example.com","password":"pw"}"#)
    );
}

#[test]
fn credentials_are_escaped() {
    let mut user = test_user();
    user.password = "p\"w\\x\n".to_string();
    let q = create_account(&user).unwrap();
    assert_eq!(
        q.body.as_deref(),
        Some("{\"address\":\"AbC@Example.COM\",\"password\":\"p\\\"w\\\\x\\n\"}")
    );
}

#[test]
fn get_account_is_an_authenticated_get() {
    let q = get_account(&test_user(), "acc1").unwrap();
    assert_eq!(q.method, Method::Get);
    assert_eq!(q.url, "https://api.mail.tm/accounts/acc1");
    assert_eq!(q.headers.len(), 5);
    assert_eq!(header(&q.headers, "Authorization").as_deref(), Some("Bearer T0k3n"));
    assert!(q.body.is_none());
}

#[test]
fn delete_account_is_an_authenticated_delete() {
    let q = delete_account(&test_user(), "acc1").unwrap();
    assert_eq!(q.method, Method::Delete);
    assert_eq!(q.url, "https://api.mail.tm/accounts/acc1");
    assert_eq!(header(&q.headers, "Authorization").as_deref(), Some("Bearer T0k3n"));
}

#[test]
fn me_targets_the_me_path() {
    let q = me(&test_user()).unwrap();
    assert_eq!(q.method, Method::Get);
    assert_eq!(q.url, "https://api.mail.tm/me");
}

#[test]
fn domains_is_unauthenticated() {
    let q = domains().unwrap();
    assert_eq!(q.method, Method::Get);
    assert_eq!(q.url, "https://api.mail.tm/domains");
    assert_eq!(q.headers.len(), 4);
    assert!(header(&q.headers, "Authorization").is_none());
}

#[test]
fn list_messages_appends_the_page_query() {
    let q = list_messages(&test_user(), Some(2)).unwrap();
    assert_eq!(q.method, Method::Get);
    assert_eq!(q.url, "https://api.mail.tm/messages?page=2");
}

#[test]
fn list_messages_without_page_has_no_query() {
    let q = list_messages(&test_user(), None).unwrap();
    assert_eq!(q.url, "https://api.mail.tm/messages");
}

#[test]
fn list_messages_prints_large_pages_in_decimal() {
    let q = list_messages(&test_user(), Some(1234567890)).unwrap();
    assert_eq!(q.url, "https://api.mail.tm/messages?page=1234567890");
}

#[test]
fn message_paths_carry_the_id() {
    let q = get_message(&test_user(), "m1").unwrap();
    assert_eq!(q.url, "https://api.mail.tm/messages/m1");
    assert_eq!(q.method, Method::Get);
    let q = delete_message(&test_user(), "m1").unwrap();
    assert_eq!(q.url, "https://api.mail.tm/messages/m1");
    assert_eq!(q.method, Method::Delete);
}

#[test]
fn an_illegal_token_fails_with_a_transport_error() {
    let mut user = test_user();
    user.email_token = "bad\ntoken".to_string();
    match get_account(&user, "acc1") {
        Err(Error::Transport(_)) => {}
        _ => panic!("expected a transport error"),
    }
}

#[test]
fn patch_fails_fast() {
    match patch(&test_user(), "m1") {
        Err(Error::Transport(_)) => {}
        _ => panic!("expected a transport error"),
    }
}

#[test]
fn update_token_replaces_only_the_token() {
    let user = test_user();
    let updated = update_token(&user, "fresh");
    assert_eq!(updated.id, "AbC");
    assert_eq!(updated.domain, "Example.COM");
    assert_eq!(updated.password, "pw");
    assert_eq!(updated.email_token, "fresh");
}
