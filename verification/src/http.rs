//! The transport-free request model: methods, header sets, the authenticated
//! client builder, and the status-code check every response passes through.

use vstd::prelude::*;
use vstd::string::StrSliceExecFns;
use vstd::string::StringExecFns;

use crate::error::Error;
use crate::USER_AGENT;

verus! {

/// The HTTP method of a request. The library issues no other methods.
#[derive(Debug, PartialEq, Eq, Structural, Clone, Copy)]
pub enum Method {
    Get,
    Post,
    Delete,
}

/// One HTTP request, fully determined: the unverified shell only has to send
/// it as it stands.
pub struct HttpRequest {
    pub method: Method,
    pub url: String,
    pub headers: Vec<(String, String)>,
    pub body: Option<String>,
}

/// The four default headers, in order: `User-Agent`, `Origin`, `TE`,
/// `Content-Type`.
pub open spec fn default_headers(hs: Seq<(String, String)>) -> bool {
    &&& hs.len() == 4
    &&& hs[0].0@ == "User-Agent"@ && hs[0].1@ == USER_AGENT@
    &&& hs[1].0@ == "Origin"@ && hs[1].1@ == "https://mail.tm"@
    &&& hs[2].0@ == "TE"@ && hs[2].1@ == "Trailers"@
    &&& hs[3].0@ == "Content-Type"@ && hs[3].1@ == "application/json;charset=utf-8"@
}

/// The default headers followed by `Authorization: Bearer <token>`.
pub open spec fn authed_headers(hs: Seq<(String, String)>, token: Seq<char>) -> bool {
    &&& hs.len() == 5
    &&& default_headers(hs.take(4))
    &&& hs[4].0@ == "Authorization"@
    &&& hs[4].1@ == "Bearer "@ + token
}

/// A character that may stand in an HTTP header value: printable ASCII,
/// space included.
pub open spec fn header_char(c: char) -> bool {
    ' ' <= c <= '~'
}

/// A text whose every character may stand in an HTTP header value.
pub open spec fn valid_header_chars(s: Seq<char>) -> bool {
    forall|i: int| 0 <= i < s.len() ==> header_char(s[i])
}

/// Decides [`valid_header_chars`].
pub fn check_header_chars(s: &str) -> (r: bool)
    ensures
        r == valid_header_chars(s@),
{
    let n = s.unicode_len();
    let mut i: usize = 0;
    while i < n
        invariant
            n == s@.len(),
            i <= n,
            forall|k: int| 0 <= k < i ==> header_char(s@[k]),
        decreases n - i,
    {
        let c = s.get_char(i);
        if !(' ' <= c && c <= '~') {
            return false;
        }
        i = i + 1;
    }
    true
}

/// The fixed header set sent with every request.
pub fn get_headers() -> (r: Vec<(String, String)>)
    ensures
        default_headers(r@),
{
    let mut hs: Vec<(String, String)> = Vec::new();
    hs.push((String::from_str("User-Agent"), String::from_str(USER_AGENT)));
    hs.push((String::from_str("Origin"), String::from_str("https://mail.tm")));
    hs.push((String::from_str("TE"), String::from_str("Trailers")));
    hs.push(
        (String::from_str("Content-Type"), String::from_str("application/json;charset=utf-8")),
    );
    hs
}

/// A client under construction: the header set a request will carry.
pub struct Client {
    pub headers: Vec<(String, String)>,
}

impl Client {
    /// A client carrying the default headers. Building them cannot fail;
    /// the `Result` keeps the shape shared by all constructors.
    pub fn new() -> (r: Result<Client, Error>)
        ensures
            r matches Ok(c) && default_headers(c.headers@),
    {
        Ok(Client { headers: get_headers() })
    }

    /// Adds `Authorization: Bearer <token>`. Fails with a `Transport` error
    /// if and only if the token holds a character illegal in a header value.
    pub fn with_auth(self, token: &str) -> (r: Result<Client, Error>)
        ensures
            valid_header_chars(token@) ==> (r matches Ok(c) && {
                &&& c.headers@.len() == self.headers@.len() + 1
                &&& c.headers@.take(self.headers@.len() as int) == self.headers@
                &&& c.headers@.last().0@ == "Authorization"@
                &&& c.headers@.last().1@ == "Bearer "@ + token@
            }),
            !valid_header_chars(token@) ==> (r matches Err(e) && e matches Error::Transport(_)),
    {
        if !check_header_chars(token) {
            return Err(
                Error::Transport(
                    String::from_str("the token holds a character illegal in a header value"),
                ),
            );
        }
        let mut value = String::from_str("Bearer ");
        value.append(token);
        let mut headers = self.headers;
        let ghost before = headers@;
        headers.push((String::from_str("Authorization"), value));
        proof {
            assert(headers@.take(before.len() as int) =~= before);
        }
        Ok(Client { headers })
    }

    /// Finishes the builder: the header set a transport should send with
    /// the request, unchanged.
    pub fn build(self) -> (r: Vec<(String, String)>)
        ensures
            r@ == self.headers@,
    {
        self.headers
    }
}

/// Whether an HTTP status code counts as success.
pub open spec fn success_status(status: u16) -> bool {
    200 <= status < 300
}

/// The uniform status gate: every non-success response becomes a `Status`
/// error carrying the code and the raw body text, read in full beforehand.
pub fn check_response_status(status: u16, body: &str) -> (r: Result<(), Error>)
    ensures
        success_status(status) ==> r is Ok,
        !success_status(status) ==> (r matches Err(e) && e matches Error::Status(c, b) && c
            == status && b@ == body@),
    {
    if 200 <= status && status < 300 {
        Ok(())
    } else {
        Err(Error::Status(status, body.to_owned()))
    }
}

/// Interprets a response from which no body is expected (the delete
/// operations): the status check alone decides.
pub fn decode_empty(status: u16, body: &str) -> (r: Result<(), Error>)
    ensures
        success_status(status) ==> r is Ok,
        !success_status(status) ==> (r matches Err(e) && e matches Error::Status(c, b) && c
            == status && b@ == body@),
{
    check_response_status(status, body)
}

} // verus!
