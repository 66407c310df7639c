//! The account lifecycle, end to end, against simulated server responses:
//! create, exchange the credentials for a token, list the mailbox, delete,
//! and watch a repeated read fail with a not-found status.

use mail_tm_rs::accounts::decode_account;
use mail_tm_rs::create_account;
use mail_tm_rs::delete_account;
use mail_tm_rs::error::Error;
use mail_tm_rs::http::decode_empty;
use mail_tm_rs::http::Method;
use mail_tm_rs::get_account;
use mail_tm_rs::list_messages;
use mail_tm_rs::messages::decode_messages;
use mail_tm_rs::token;
use mail_tm_rs::token::decode_token;
use mail_tm_rs::update_token;
use mail_tm_rs::user::User;

#[test]
fn the_account_lifecycle_holds_together() {
    let user = User {
        id: "abc".to_string(),
        domain: "example.com".to_string(),
        password: "s3cret".to_string(),
        email_token: "".to_string(),
    };

    // Create the account: the request carries the plain address.
    let q = create_account(&user).unwrap();
    assert_eq!(q.method, Method::Post);
    assert!(q.body.unwrap().contains(r#""address":"abc@example.com""#));
    let created = decode_account(
        200,
        r#"{"id":"acc1","address":"abc@example.com","quota":1000,"used":0,"isDisabled":false,"createdAt":"t0","updatedAt":"t0"}"#.to_string(),
    )
    .unwrap();
    assert_eq!(created.address, "abc@example.com");
    assert_eq!(created.id.as_deref(), Some("acc1"));

    // Exchange the credentials for a token: the address is lower-cased.
    let q = token(&user).unwrap();
    assert!(q.body.unwrap().contains(r#""address":"abc@example.com""#));
    let issued = decode_token(200, r#"{"token":"TOK","id":"acc1"}"#.to_string()).unwrap();
    let user = update_token(&user, &issued.token);
    assert_eq!(user.email_token, "TOK");

    // List the mailbox, first page.
    let q = list_messages(&user, Some(1)).unwrap();
    assert_eq!(q.url, "https://api.mail.tm/messages?page=1");
    let page = decode_messages(
        200,
        r#"{"hydra:member":[],"hydra:totalItems":0}"#.to_string(),
    )
    .unwrap();
    assert!(page.total_items >= 0);
    assert!(page.members.is_empty());

    // Delete the account; the delete needs only the status.
    let q = delete_account(&user, "acc1").unwrap();
    assert_eq!(q.method, Method::Delete);
    assert!(decode_empty(204, "").is_ok());

    // A repeated read now surfaces the not-found status verbatim.
    let q = get_account(&user, "acc1").unwrap();
    assert_eq!(q.url, "https://api.mail.tm/accounts/acc1");
    match decode_account(404, "not found".to_string()) {
        Err(Error::Status(code, body)) => {
            assert_eq!(code, 404);
            assert_eq!(body, "not found");
        }
        _ => panic!("expected a status error"),
    }
}
