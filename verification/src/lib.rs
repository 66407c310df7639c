//! A verified client core for the mail.tm disposable-email REST API.
//!
//! The library is transport-free: every operation is described as an
//! [`http::HttpRequest`] value (method, URL, headers, optional body) built
//! here, and every server answer is interpreted by a decoder that takes the
//! status code and the body text (`decode_account`, `decode_domains`,
//! `decode_messages`, `decode_message`, `decode_token`, `decode_empty`). A
//! thin unverified shell around the library performs the actual network
//! round trips.

use vstd::prelude::*;
use vstd::string::StringExecFns;

pub mod accounts;
pub mod domains;
pub mod error;
pub mod http;
pub mod hydra;
pub mod json;
pub mod messages;
pub mod token;
pub mod user;

use crate::accounts::Account;
use crate::error::Error;
use crate::http::{
    authed_headers, default_headers, valid_header_chars, Client, HttpRequest, Method,
};
use crate::json::{credentials_body, credentials_text, dec_digits, u64_to_dec};
use crate::user::{address_chars, lower_of, lowercase, User};

verus! {

/// Base URL of the service; every request URL starts with it.
pub const MAIL_API_URL: &'static str = "https://api.mail.tm";

/// Identifying string sent in the `User-Agent` header.
pub const USER_AGENT: &'static str = "Isahc; mail-tm-rs";

/// The request that creates an account: an unauthenticated POST to
/// `/accounts` whose body carries the address `id@domain` — case preserved —
/// and the password.
pub fn create_account(user: &User) -> (r: Result<HttpRequest, Error>)
    ensures
        r matches Ok(q) && ({
            &&& q.method == Method::Post
            &&& q.url@ == MAIL_API_URL@ + "/accounts"@
            &&& default_headers(q.headers@)
            &&& q.body matches Some(b) && b@ == credentials_text(
                address_chars(user),
                user.password@,
            )
        }),
{
    let account = Account::from_user(user);
    let password = account.password.unwrap();
    let body = credentials_body(account.address.as_str(), password.as_str());
    let client = match Client::new() {
        Ok(c) => c,
        Err(e) => { return Err(e); },
    };
    let mut url = String::from_str(MAIL_API_URL);
    url.append("/accounts");
    Ok(HttpRequest { method: Method::Post, url, headers: client.headers, body: Some(body) })
}

/// The request that exchanges credentials for a bearer token: an
/// unauthenticated POST to `/token` whose body carries the lower-cased
/// address — unlike account creation, which preserves its case — and the
/// password.
pub fn token(user: &User) -> (r: Result<HttpRequest, Error>)
    ensures
        r matches Ok(q) && ({
            &&& q.method == Method::Post
            &&& q.url@ == MAIL_API_URL@ + "/token"@
            &&& default_headers(q.headers@)
            &&& q.body matches Some(b) && b@ == credentials_text(
                lower_of(address_chars(user)),
                user.password@,
            )
        }),
{
    let address = user.address();
    let lowered = lowercase(address.as_str());
    let body = credentials_body(lowered.as_str(), user.password.as_str());
    let client = match Client::new() {
        Ok(c) => c,
        Err(e) => { return Err(e); },
    };
    let mut url = String::from_str(MAIL_API_URL);
    url.append("/token");
    Ok(HttpRequest { method: Method::Post, url, headers: client.headers, body: Some(body) })
}

/// The request that retrieves an account by id: an authenticated GET to
/// `/accounts/{id}`. Fails with a `Transport` error if and only if the
/// user's token cannot stand in a header.
pub fn get_account(user: &User, id: &str) -> (r: Result<HttpRequest, Error>)
    ensures
        valid_header_chars(user.email_token@) ==> (r matches Ok(q) && {
            &&& q.method == Method::Get
            &&& q.url@ == MAIL_API_URL@ + "/accounts/"@ + id@
            &&& authed_headers(q.headers@, user.email_token@)
            &&& q.body is None
        }),
        !valid_header_chars(user.email_token@) ==> (r matches Err(e) && e matches Error::Transport(
            _,
        )),
{
    let client = match Client::new() {
        Ok(c) => c,
        Err(e) => { return Err(e); },
    };
    let client = match client.with_auth(user.email_token.as_str()) {
        Ok(c) => c,
        Err(e) => { return Err(e); },
    };
    let mut url = String::from_str(MAIL_API_URL);
    url.append("/accounts/");
    url.append(id);
    Ok(HttpRequest { method: Method::Get, url, headers: client.headers, body: None })
}

/// The request that deletes an account by id: an authenticated DELETE to
/// `/accounts/{id}`.
pub fn delete_account(user: &User, id: &str) -> (r: Result<HttpRequest, Error>)
    ensures
        valid_header_chars(user.email_token@) ==> (r matches Ok(q) && {
            &&& q.method == Method::Delete
            &&& q.url@ == MAIL_API_URL@ + "/accounts/"@ + id@
            &&& authed_headers(q.headers@, user.email_token@)
            &&& q.body is None
        }),
        !valid_header_chars(user.email_token@) ==> (r matches Err(e) && e matches Error::Transport(
            _,
        )),
{
    let client = match Client::new() {
        Ok(c) => c,
        Err(e) => { return Err(e); },
    };
    let client = match client.with_auth(user.email_token.as_str()) {
        Ok(c) => c,
        Err(e) => { return Err(e); },
    };
    let mut url = String::from_str(MAIL_API_URL);
    url.append("/accounts/");
    url.append(id);
    Ok(HttpRequest { method: Method::Delete, url, headers: client.headers, body: None })
}

/// The request that retrieves the token holder's own account: an
/// authenticated GET to `/me`.
pub fn me(user: &User) -> (r: Result<HttpRequest, Error>)
    ensures
        valid_header_chars(user.email_token@) ==> (r matches Ok(q) && {
            &&& q.method == Method::Get
            &&& q.url@ == MAIL_API_URL@ + "/me"@
            &&& authed_headers(q.headers@, user.email_token@)
            &&& q.body is None
        }),
        !valid_header_chars(user.email_token@) ==> (r matches Err(e) && e matches Error::Transport(
            _,
        )),
{
    let client = match Client::new() {
        Ok(c) => c,
        Err(e) => { return Err(e); },
    };
    let client = match client.with_auth(user.email_token.as_str()) {
        Ok(c) => c,
        Err(e) => { return Err(e); },
    };
    let mut url = String::from_str(MAIL_API_URL);
    url.append("/me");
    Ok(HttpRequest { method: Method::Get, url, headers: client.headers, body: None })
}

/// The request that lists the registrable domains: an unauthenticated GET
/// to `/domains`.
pub fn domains() -> (r: Result<HttpRequest, Error>)
    ensures
        r matches Ok(q) && ({
            &&& q.method == Method::Get
            &&& q.url@ == MAIL_API_URL@ + "/domains"@
            &&& default_headers(q.headers@)
            &&& q.body is None
        }),
{
    let client = match Client::new() {
        Ok(c) => c,
        Err(e) => { return Err(e); },
    };
    let mut url = String::from_str(MAIL_API_URL);
    url.append("/domains");
    Ok(HttpRequest { method: Method::Get, url, headers: client.headers, body: None })
}

/// The request that lists messages: an authenticated GET to `/messages`,
/// with `?page=N` appended exactly when a page is asked for (pages are
/// 1-based; absent means the server's default page).
pub fn list_messages(user: &User, page: Option<usize>) -> (r: Result<HttpRequest, Error>)
    ensures
        valid_header_chars(user.email_token@) ==> (r matches Ok(q) && {
            &&& q.method == Method::Get
            &&& match page {
                Some(n) => q.url@ == MAIL_API_URL@ + "/messages?page="@ + dec_digits(n as int),
                None => q.url@ == MAIL_API_URL@ + "/messages"@,
            }
            &&& authed_headers(q.headers@, user.email_token@)
            &&& q.body is None
        }),
        !valid_header_chars(user.email_token@) ==> (r matches Err(e) && e matches Error::Transport(
            _,
        )),
{
    let client = match Client::new() {
        Ok(c) => c,
        Err(e) => { return Err(e); },
    };
    let client = match client.with_auth(user.email_token.as_str()) {
        Ok(c) => c,
        Err(e) => { return Err(e); },
    };
    let mut url = String::from_str(MAIL_API_URL);
    url.append("/messages");
    if let Some(n) = page {
        url.append("?page=");
        let digits = u64_to_dec(n as u64);
        url.append(digits.as_str());
        proof {
            reveal_strlit("/messages");
            reveal_strlit("?page=");
            reveal_strlit("/messages?page=");
            assert("/messages"@ + "?page="@ =~= "/messages?page="@);
            assert(url@ =~= MAIL_API_URL@ + "/messages?page="@ + dec_digits(n as int));
        }
    }
    Ok(HttpRequest { method: Method::Get, url, headers: client.headers, body: None })
}

/// The request that retrieves a message by id: an authenticated GET to
/// `/messages/{id}`.
pub fn get_message(user: &User, id: &str) -> (r: Result<HttpRequest, Error>)
    ensures
        valid_header_chars(user.email_token@) ==> (r matches Ok(q) && {
            &&& q.method == Method::Get
            &&& q.url@ == MAIL_API_URL@ + "/messages/"@ + id@
            &&& authed_headers(q.headers@, user.email_token@)
            &&& q.body is None
        }),
        !valid_header_chars(user.email_token@) ==> (r matches Err(e) && e matches Error::Transport(
            _,
        )),
{
    let client = match Client::new() {
        Ok(c) => c,
        Err(e) => { return Err(e); },
    };
    let client = match client.with_auth(user.email_token.as_str()) {
        Ok(c) => c,
        Err(e) => { return Err(e); },
    };
    let mut url = String::from_str(MAIL_API_URL);
    url.append("/messages/");
    url.append(id);
    Ok(HttpRequest { method: Method::Get, url, headers: client.headers, body: None })
}

/// The request that deletes a message by id: an authenticated DELETE to
/// `/messages/{id}`.
pub fn delete_message(user: &User, id: &str) -> (r: Result<HttpRequest, Error>)
    ensures
        valid_header_chars(user.email_token@) ==> (r matches Ok(q) && {
            &&& q.method == Method::Delete
            &&& q.url@ == MAIL_API_URL@ + "/messages/"@ + id@
            &&& authed_headers(q.headers@, user.email_token@)
            &&& q.body is None
        }),
        !valid_header_chars(user.email_token@) ==> (r matches Err(e) && e matches Error::Transport(
            _,
        )),
{
    let client = match Client::new() {
        Ok(c) => c,
        Err(e) => { return Err(e); },
    };
    let client = match client.with_auth(user.email_token.as_str()) {
        Ok(c) => c,
        Err(e) => { return Err(e); },
    };
    let mut url = String::from_str(MAIL_API_URL);
    url.append("/messages/");
    url.append(id);
    Ok(HttpRequest { method: Method::Delete, url, headers: client.headers, body: None })
}

/// Patching a message is not offered by this library: the operation fails
/// fast instead of pretending a mutation occurred.
pub fn patch(user: &User, id: &str) -> (r: Result<HttpRequest, Error>)
    ensures
        r matches Err(e) && e matches Error::Transport(_),
{
    let _ = user;
    let _ = id;
    Err(Error::Transport(String::from_str("patching a message is not implemented")))
}

/// A copy of the user carrying a fresh email token; every other credential
/// is kept as it was.
pub fn update_token(user: &User, token: &str) -> (r: User)
    ensures
        r.id == user.id,
        r.domain == user.domain,
        r.password == user.password,
        r.email_token@ == token@,
{
    User {
        id: user.id.clone(),
        domain: user.domain.clone(),
        password: user.password.clone(),
        email_token: token.to_owned(),
    }
}

} // verus!
