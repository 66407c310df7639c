//! The bearer token issued by the token endpoint.

use vstd::prelude::*;
use vstd::string::StringExecFns;

use crate::error::Error;
use crate::http::success_status;
use crate::json::{get_of, json_of, lookup, Json};

verus! {

/// A bearer token and the id of the account it belongs to.
#[derive(Debug, PartialEq)]
pub struct Token {
    pub token: String,
    pub id: String,
}

/// The token a JSON tree describes: an object with string fields `token`
/// and `id`, both required.
pub open spec fn parse_token(j: Json) -> Option<Token> {
    match (get_of(j, "token"@), get_of(j, "id"@)) {
        (Some(Json::Str(t)), Some(Json::Str(i))) => Some(Token { token: t, id: i }),
        _ => None,
    }
}

/// Reads a token out of a JSON tree, exactly as [`parse_token`] says.
pub fn token_from_json(j: Json) -> (r: Option<Token>)
    ensures
        r == parse_token(j),
{
    let ghost j0 = j;
    let mut entries = match j {
        Json::Obj(es) => es,
        _ => { return None; },
    };
    let ghost orig = entries@;
    proof {
        reveal_strlit("token");
        reveal_strlit("id");
    }
    let k_token = String::from_str("token");
    let k_id = String::from_str("id");
    let mut s_token: Option<Json> = None;
    let mut s_id: Option<Json> = None;
    let ghost mut rem: int = orig.len() as int;
    while entries.len() > 0
        invariant
            k_token@ == "token"@,
            k_id@ == "id"@,
            0 <= rem <= orig.len(),
            entries@ == orig.take(rem),
            s_token == lookup(orig.skip(rem), "token"@),
            s_id == lookup(orig.skip(rem), "id"@),
        decreases entries.len(),
    {
        let (k, v) = entries.pop().unwrap();
        proof {
            reveal_strlit("token");
            reveal_strlit("id");
            assert(orig.take(rem).last() == orig[rem - 1]);
            assert(orig.take(rem).drop_last() =~= orig.take(rem - 1));
            assert(orig.skip(rem - 1)[0] == orig[rem - 1]);
            assert(orig.skip(rem - 1).skip(1) =~= orig.skip(rem));
        }
        proof {
            reveal_strlit("token");
            reveal_strlit("id");
            assert("token"@.len() == 5);
            assert("id"@.len() == 2);
            assert(k == orig[rem - 1].0);
            assert(v == orig[rem - 1].1);
        }
        if k == k_token {
            s_token = Some(v);
        } else if k == k_id {
            s_id = Some(v);
        }
        proof {
            rem = rem - 1;
        }
    }
    proof {
        assert(orig.take(rem).len() == 0);
        assert(rem == 0);
        assert(orig.skip(0) =~= orig);
    }
    match (s_token, s_id) {
        (Some(Json::Str(t)), Some(Json::Str(i))) => Some(Token { token: t, id: i }),
        _ => None,
    }
}

/// Interprets the response of the token endpoint: a non-success status
/// becomes a `Status` error carrying the raw body; a body that is not JSON,
/// or not the shape of a token, becomes a `Decode` error carrying the raw
/// body; otherwise the token is returned exactly as [`parse_token`] reads it.
pub fn decode_token(status: u16, body: String) -> (r: Result<Token, Error>)
    ensures
        !success_status(status) ==> r == Err::<Token, Error>(Error::Status(status, body)),
        success_status(status) ==> match json_of(body@) {
            None => r matches Err(e) && e matches Error::Decode(_, b) && b == body,
            Some(jv) => match parse_token(jv) {
                Some(t) => r == Ok::<Token, Error>(t),
                None => r matches Err(e) && e matches Error::Decode(_, b) && b == body,
            },
        },
{
    if !(200 <= status && status < 300) {
        return Err(Error::Status(status, body));
    }
    match crate::json::parse_json(body.as_str()) {
        None => Err(Error::Decode(String::from_str("the body is not valid JSON"), body)),
        Some(j) => match token_from_json(j) {
            Some(t) => Ok(t),
            None => Err(
                Error::Decode(String::from_str("the body is not the shape of a token"), body),
            ),
        },
    }
}

} // verus!
