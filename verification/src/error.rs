//! The error taxonomy shared by every operation of the library.

use vstd::prelude::*;

verus! {

/// Every fallible operation of this library reports one of these three kinds.
///
/// - `Transport` — the request could not even be built or sent; carries a
///   description of the cause.
/// - `Status` — the server answered with a non-success HTTP status; carries
///   the status code and the raw body text, so callers can read the server's
///   diagnostic message.
/// - `Decode` — the body of a successful response did not have the expected
///   shape; carries a description of the failure and the raw body.
#[derive(Debug)]
pub enum Error {
    Transport(String),
    Status(u16, String),
    Decode(String, String),
}

impl Error {
    /// The raw response body attached to the error, where one exists:
    /// the body of a `Status` error and of a `Decode` error.
    pub fn raw_body(&self) -> (r: Option<&String>)
        ensures
            match *self {
                Error::Status(_, ref b) => r == Some(b),
                Error::Decode(_, ref b) => r == Some(b),
                Error::Transport(_) => r is None,
            },
    {
        match self {
            Error::Transport(_) => None,
            Error::Status(_, b) => Some(b),
            Error::Decode(_, b) => Some(b),
        }
    }

    /// The HTTP status code, for `Status` errors.
    pub fn status_code(&self) -> (r: Option<u16>)
        ensures
            match *self {
                Error::Status(c, _) => r == Some(c),
                _ => r is None,
            },
    {
        match self {
            Error::Status(c, _) => Some(*c),
            _ => None,
        }
    }
}

/// A decode failure that carries the raw body `body`, whatever its message.
pub open spec fn is_decode_err<T>(r: Result<T, Error>, body: String) -> bool {
    &&& r matches Err(e)
    &&& e matches Error::Decode(_, b)
    &&& b == body
}

} // verus!
