//! The account resource: the mailbox the service creates and serves.

use vstd::prelude::*;
use vstd::string::StringExecFns;

use crate::error::{is_decode_err, Error};
use crate::http::success_status;
use crate::hydra::{opt_str_field, req_bool, req_num, req_str, take_bool, take_num, take_opt_str,
    take_str};
use crate::json::{get_of, json_of, lookup, Json};
use crate::user::{address_chars, User};

verus! {

/// A mailbox account. The password is write-only: it is sent when creating
/// an account and never comes back in a response. The timestamps and the
/// hypermedia metadata are carried opaquely.
#[derive(Debug, PartialEq)]
pub struct Account {
    pub address: String,
    pub password: Option<String>,
    pub quota: i64,
    pub used: i64,
    pub is_disabled: bool,
    pub created_at: Json,
    pub updated_at: Json,
    pub context: Option<String>,
    pub at_id: Option<String>,
    pub type_field: Option<String>,
    pub id: Option<String>,
}

impl Account {
    /// The create-request value derived from a user: the address is
    /// `id@domain` with its case preserved, the password is attached, and
    /// every server-side field is empty.
    pub fn from_user(user: &User) -> (r: Account)
        ensures
            r.address@ == address_chars(user),
            r.password matches Some(p) && p == user.password,
            r.quota == 0 && r.used == 0 && !r.is_disabled,
            r.created_at == Json::Null && r.updated_at == Json::Null,
            r.context is None && r.at_id is None && r.type_field is None && r.id is None,
    {
        Account {
            address: user.address(),
            password: Some(user.password.clone()),
            quota: 0,
            used: 0,
            is_disabled: false,
            created_at: Json::Null,
            updated_at: Json::Null,
            context: None,
            at_id: None,
            type_field: None,
            id: None,
        }
    }
}

/// The account a JSON tree describes: address, quota, usage, disabled flag
/// and both timestamps are required (the timestamps as opaque values); the
/// password and the hypermedia metadata are optional.
pub open spec fn parse_account(j: Json) -> Option<Account> {
    match (
        req_str(get_of(j, "address"@)),
        opt_str_field(get_of(j, "password"@)),
        req_num(get_of(j, "quota"@)),
        req_num(get_of(j, "used"@)),
        req_bool(get_of(j, "isDisabled"@)),
        get_of(j, "createdAt"@),
        get_of(j, "updatedAt"@),
        opt_str_field(get_of(j, "@context"@)),
        opt_str_field(get_of(j, "@id"@)),
        opt_str_field(get_of(j, "@type"@)),
        opt_str_field(get_of(j, "id"@)),
    ) {
        (
            Some(ad),
            Some(pw),
            Some(qu),
            Some(us),
            Some(di),
            Some(ca),
            Some(ua),
            Some(cx),
            Some(ai),
            Some(tf),
            Some(id),
        ) => Some(
            Account {
                address: ad,
                password: pw,
                quota: qu,
                used: us,
                is_disabled: di,
                created_at: ca,
                updated_at: ua,
                context: cx,
                at_id: ai,
                type_field: tf,
                id,
            },
        ),
        _ => None,
    }
}

/// Reads an account out of a JSON tree, exactly as [`parse_account`] says.
pub fn account_from_json(j: Json) -> (r: Option<Account>)
    ensures
        r == parse_account(j),
{
    let ghost j0 = j;
    let mut entries = match j {
        Json::Obj(es) => es,
        _ => { return None; },
    };
    let ghost orig = entries@;
    let k_address = String::from_str("address");
    let k_password = String::from_str("password");
    let k_quota = String::from_str("quota");
    let k_used = String::from_str("used");
    let k_disabled = String::from_str("isDisabled");
    let k_created = String::from_str("createdAt");
    let k_updated = String::from_str("updatedAt");
    let k_ctx = String::from_str("@context");
    let k_at_id = String::from_str("@id");
    let k_type = String::from_str("@type");
    let k_id = String::from_str("id");
    let mut s_address: Option<Json> = None;
    let mut s_password: Option<Json> = None;
    let mut s_quota: Option<Json> = None;
    let mut s_used: Option<Json> = None;
    let mut s_disabled: Option<Json> = None;
    let mut s_created: Option<Json> = None;
    let mut s_updated: Option<Json> = None;
    let mut s_ctx: Option<Json> = None;
    let mut s_at_id: Option<Json> = None;
    let mut s_type: Option<Json> = None;
    let mut s_id: Option<Json> = None;
    let ghost mut rem: int = orig.len() as int;
    while entries.len() > 0
        invariant
            k_address@ == "address"@,
            k_password@ == "password"@,
            k_quota@ == "quota"@,
            k_used@ == "used"@,
            k_disabled@ == "isDisabled"@,
            k_created@ == "createdAt"@,
            k_updated@ == "updatedAt"@,
            k_ctx@ == "@context"@,
            k_at_id@ == "@id"@,
            k_type@ == "@type"@,
            k_id@ == "id"@,
            0 <= rem <= orig.len(),
            entries@ == orig.take(rem),
            s_address == lookup(orig.skip(rem), "address"@),
            s_password == lookup(orig.skip(rem), "password"@),
            s_quota == lookup(orig.skip(rem), "quota"@),
            s_used == lookup(orig.skip(rem), "used"@),
            s_disabled == lookup(orig.skip(rem), "isDisabled"@),
            s_created == lookup(orig.skip(rem), "createdAt"@),
            s_updated == lookup(orig.skip(rem), "updatedAt"@),
            s_ctx == lookup(orig.skip(rem), "@context"@),
            s_at_id == lookup(orig.skip(rem), "@id"@),
            s_type == lookup(orig.skip(rem), "@type"@),
            s_id == lookup(orig.skip(rem), "id"@),
        decreases entries.len(),
    {
        let (k, v) = entries.pop().unwrap();
        proof {
            reveal_strlit("address");
            reveal_strlit("password");
            reveal_strlit("quota");
            reveal_strlit("used");
            reveal_strlit("isDisabled");
            reveal_strlit("createdAt");
            reveal_strlit("updatedAt");
            reveal_strlit("@context");
            reveal_strlit("@id");
            reveal_strlit("@type");
            reveal_strlit("id");
            assert("address"@.len() == 7);
            assert("password"@.len() == 8);
            assert("quota"@.len() == 5);
            assert("used"@.len() == 4);
            assert("isDisabled"@.len() == 10);
            assert("createdAt"@.len() == 9);
            assert("updatedAt"@.len() == 9);
            assert("@context"@.len() == 8);
            assert("@id"@.len() == 3);
            assert("@type"@.len() == 5);
            assert("id"@.len() == 2);
            assert("password"@[0] == 'p');
            assert("@context"@[0] == '@');
            assert("createdAt"@[0] == 'c');
            assert("updatedAt"@[0] == 'u');
            assert("quota"@[0] == 'q');
            assert("@type"@[0] == '@');
            assert(k == orig[rem - 1].0);
            assert(v == orig[rem - 1].1);
            assert(orig.take(rem).drop_last() =~= orig.take(rem - 1));
            assert(orig.skip(rem - 1)[0] == orig[rem - 1]);
            assert(orig.skip(rem - 1).skip(1) =~= orig.skip(rem));
        }
        if k == k_address {
            s_address = Some(v);
        } else if k == k_password {
            s_password = Some(v);
        } else if k == k_quota {
            s_quota = Some(v);
        } else if k == k_used {
            s_used = Some(v);
        } else if k == k_disabled {
            s_disabled = Some(v);
        } else if k == k_created {
            s_created = Some(v);
        } else if k == k_updated {
            s_updated = Some(v);
        } else if k == k_ctx {
            s_ctx = Some(v);
        } else if k == k_at_id {
            s_at_id = Some(v);
        } else if k == k_type {
            s_type = Some(v);
        } else if k == k_id {
            s_id = Some(v);
        }
        proof {
            rem = rem - 1;
        }
    }
    proof {
        assert(orig.take(rem).len() == 0);
        assert(rem == 0);
        assert(orig.skip(0) =~= orig);
    }
    let f_address = match take_str(s_address) {
        Some(x) => x,
        None => { return None; },
    };
    let f_password = match take_opt_str(s_password) {
        Some(x) => x,
        None => { return None; },
    };
    let f_quota = match take_num(s_quota) {
        Some(x) => x,
        None => { return None; },
    };
    let f_used = match take_num(s_used) {
        Some(x) => x,
        None => { return None; },
    };
    let f_disabled = match take_bool(s_disabled) {
        Some(x) => x,
        None => { return None; },
    };
    let f_created = match s_created {
        Some(x) => x,
        None => { return None; },
    };
    let f_updated = match s_updated {
        Some(x) => x,
        None => { return None; },
    };
    let f_ctx = match take_opt_str(s_ctx) {
        Some(x) => x,
        None => { return None; },
    };
    let f_at_id = match take_opt_str(s_at_id) {
        Some(x) => x,
        None => { return None; },
    };
    let f_type = match take_opt_str(s_type) {
        Some(x) => x,
        None => { return None; },
    };
    let f_id = match take_opt_str(s_id) {
        Some(x) => x,
        None => { return None; },
    };
    Some(
        Account {
            address: f_address,
            password: f_password,
            quota: f_quota,
            used: f_used,
            is_disabled: f_disabled,
            created_at: f_created,
            updated_at: f_updated,
            context: f_ctx,
            at_id: f_at_id,
            type_field: f_type,
            id: f_id,
        },
    )
}

/// Interprets the response of the account endpoints: a non-success status
/// becomes a `Status` error carrying the raw body; a body that is not JSON
/// or not the shape of an account becomes a `Decode` error carrying the raw
/// body; otherwise the account is returned exactly as [`parse_account`]
/// reads it.
pub fn decode_account(status: u16, body: String) -> (r: Result<Account, Error>)
    ensures
        !success_status(status) ==> r == Err::<Account, Error>(Error::Status(status, body)),
        success_status(status) ==> match json_of(body@) {
            None => is_decode_err(r, body),
            Some(jv) => match parse_account(jv) {
                Some(a) => r == Ok::<Account, Error>(a),
                None => is_decode_err(r, body),
            },
        },
{
    if !(200 <= status && status < 300) {
        return Err(Error::Status(status, body));
    }
    match crate::json::parse_json(body.as_str()) {
        None => Err(Error::Decode(String::from_str("the body is not valid JSON"), body)),
        Some(j) => match account_from_json(j) {
            Some(a) => Ok(a),
            None => Err(
                Error::Decode(String::from_str("the body is not the shape of an account"), body),
            ),
        },
    }
}

/// Writes an account back as a JSON tree. Decoding the result restores the
/// account exactly: the round trip loses nothing.
pub fn account_to_json(a: Account) -> (r: Json)
    ensures
        parse_account(r) == Some(a),
{
    let ghost a0 = a;
    let mut es: Vec<(String, Json)> = Vec::new();
    es.push((String::from_str("address"), Json::Str(a.address)));
    es.push(
        (
            String::from_str("password"),
            match a.password {
                Some(p) => Json::Str(p),
                None => Json::Null,
            },
        ),
    );
    es.push((String::from_str("quota"), Json::Num(a.quota)));
    es.push((String::from_str("used"), Json::Num(a.used)));
    es.push((String::from_str("isDisabled"), Json::Bool(a.is_disabled)));
    es.push((String::from_str("createdAt"), a.created_at));
    es.push((String::from_str("updatedAt"), a.updated_at));
    es.push(
        (
            String::from_str("@context"),
            match a.context {
                Some(c) => Json::Str(c),
                None => Json::Null,
            },
        ),
    );
    es.push(
        (
            String::from_str("@id"),
            match a.at_id {
                Some(c) => Json::Str(c),
                None => Json::Null,
            },
        ),
    );
    es.push(
        (
            String::from_str("@type"),
            match a.type_field {
                Some(c) => Json::Str(c),
                None => Json::Null,
            },
        ),
    );
    es.push(
        (
            String::from_str("id"),
            match a.id {
                Some(c) => Json::Str(c),
                None => Json::Null,
            },
        ),
    );
    let r = Json::Obj(es);
    proof {
        reveal_with_fuel(lookup, 13);
        reveal_strlit("address");
        reveal_strlit("password");
        reveal_strlit("quota");
        reveal_strlit("used");
        reveal_strlit("isDisabled");
        reveal_strlit("createdAt");
        reveal_strlit("updatedAt");
        reveal_strlit("@context");
        reveal_strlit("@id");
        reveal_strlit("@type");
        reveal_strlit("id");
        assert("address"@.len() == 7);
        assert("password"@.len() == 8);
        assert("quota"@.len() == 5);
        assert("used"@.len() == 4);
        assert("isDisabled"@.len() == 10);
        assert("createdAt"@.len() == 9);
        assert("updatedAt"@.len() == 9);
        assert("@context"@.len() == 8);
        assert("@id"@.len() == 3);
        assert("@type"@.len() == 5);
        assert("id"@.len() == 2);
        assert("password"@[0] == 'p');
        assert("@context"@[0] == '@');
        assert("createdAt"@[0] == 'c');
        assert("updatedAt"@[0] == 'u');
        assert("quota"@[0] == 'q');
        assert("@type"@[0] == '@');
        assert(get_of(r, "address"@) == Some(Json::Str(a0.address)));
        assert(get_of(r, "quota"@) == Some(Json::Num(a0.quota)));
        assert(get_of(r, "used"@) == Some(Json::Num(a0.used)));
        assert(get_of(r, "isDisabled"@) == Some(Json::Bool(a0.is_disabled)));
        assert(get_of(r, "createdAt"@) == Some(a0.created_at));
        assert(get_of(r, "updatedAt"@) == Some(a0.updated_at));
    }
    r
}

} // verus!
