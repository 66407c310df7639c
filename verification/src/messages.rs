//! The message resource: the mail delivered to a mailbox, and its pages.

use vstd::prelude::*;
use vstd::string::StringExecFns;

use crate::error::{is_decode_err, Error};
use crate::http::success_status;
use crate::hydra::{
    collection_wf, envelope_ok, members_field, req_bool, req_num, req_str, search_encodable,
    search_field, search_to_json, split_envelope, take_bool, take_num, take_str, total_field,
    view_field, view_to_json, HydraCollection, PageView, Search,
};
use crate::json::{get_of, json_of, lookup, Json};

verus! {

/// The sender of a message.
#[derive(Debug, PartialEq)]
pub struct From {
    pub address: String,
    pub name: String,
}

/// One recipient of a message.
#[derive(Debug, PartialEq)]
pub struct To {
    pub address: String,
    pub name: String,
}

/// One delivered message. The carbon-copy lists, the verification results
/// and the attachment descriptors are carried as opaque JSON values.
#[derive(Debug, PartialEq)]
pub struct Message {
    pub context: String,
    pub id: String,
    pub type_field: String,
    pub id2: String,
    pub account_id: String,
    pub msg_id: String,
    pub from: From,
    pub to: Vec<To>,
    pub cc: Vec<Json>,
    pub bcc: Vec<Json>,
    pub subject: String,
    pub seen: bool,
    pub flagged: bool,
    pub verification_results: Vec<Json>,
    pub retention: bool,
    pub retention_date: i64,
    pub text: String,
    pub html: Vec<String>,
    pub has_attachments: bool,
    pub attachments: Vec<Json>,
    pub download_url: String,
    pub size: i64,
    pub created_at: String,
    pub updated_at: String,
}

/// A page of messages under the envelope's own field names.
#[derive(Debug, PartialEq)]
pub struct Messages {
    pub messages: Vec<Message>,
    pub total_items: i64,
    pub view: Option<PageView>,
    pub search: Option<Search>,
}

/// The sender a JSON tree describes: address and name, both required.
pub open spec fn parse_from(j: Json) -> Option<From> {
    match (req_str(get_of(j, "address"@)), req_str(get_of(j, "name"@))) {
        (Some(a), Some(n)) => Some(From { address: a, name: n }),
        _ => None,
    }
}

/// The recipient a JSON tree describes: address and name, both required.
pub open spec fn parse_to(j: Json) -> Option<To> {
    match (req_str(get_of(j, "address"@)), req_str(get_of(j, "name"@))) {
        (Some(a), Some(n)) => Some(To { address: a, name: n }),
        _ => None,
    }
}

/// Every item of the array is a recipient.
pub open spec fn to_items_ok(items: Seq<Json>) -> bool {
    forall|i: int| 0 <= i < items.len() ==> parse_to(#[trigger] items[i]) is Some
}

/// The recipient list reads the array item by item, in order.
pub open spec fn to_items_match(ts: Seq<To>, items: Seq<Json>) -> bool {
    &&& ts.len() == items.len()
    &&& forall|i: int| 0 <= i < items.len() ==> Some(#[trigger] ts[i]) == parse_to(items[i])
}

/// Every item of the array is a string.
pub open spec fn str_items_ok(items: Seq<Json>) -> bool {
    forall|i: int| 0 <= i < items.len() ==> #[trigger] items[i] matches Json::Str(_)
}

/// The string list reads the array item by item, in order.
pub open spec fn str_items_match(ss: Seq<String>, items: Seq<Json>) -> bool {
    &&& ss.len() == items.len()
    &&& forall|i: int| 0 <= i < items.len() ==> #[trigger] items[i] == Json::Str(ss[i])
}

/// Reads a sender out of a JSON tree, exactly as [`parse_from`] says.
pub fn from_from_json(j: Json) -> (r: Option<From>)
    ensures
        r == parse_from(j),
{
    let ghost j0 = j;
    let mut entries = match j {
        Json::Obj(es) => es,
        _ => { return None; },
    };
    let ghost orig = entries@;
    let k_address = String::from_str("address");
    let k_name = String::from_str("name");
    let mut s_address: Option<Json> = None;
    let mut s_name: Option<Json> = None;
    let ghost mut rem: int = orig.len() as int;
    while entries.len() > 0
        invariant
            k_address@ == "address"@,
            k_name@ == "name"@,
            0 <= rem <= orig.len(),
            entries@ == orig.take(rem),
            s_address == lookup(orig.skip(rem), "address"@),
            s_name == lookup(orig.skip(rem), "name"@),
        decreases entries.len(),
    {
        let (k, v) = entries.pop().unwrap();
        proof {
            reveal_strlit("address");
            reveal_strlit("name");
            assert("address"@.len() == 7);
            assert("name"@.len() == 4);
            assert(k == orig[rem - 1].0);
            assert(v == orig[rem - 1].1);
            assert(orig.take(rem).drop_last() =~= orig.take(rem - 1));
            assert(orig.skip(rem - 1)[0] == orig[rem - 1]);
            assert(orig.skip(rem - 1).skip(1) =~= orig.skip(rem));
        }
        if k == k_address {
            s_address = Some(v);
        } else if k == k_name {
            s_name = Some(v);
        }
        proof {
            rem = rem - 1;
        }
    }
    proof {
        assert(orig.take(rem).len() == 0);
        assert(rem == 0);
        assert(orig.skip(0) =~= orig);
    }
    match (take_str(s_address), take_str(s_name)) {
        (Some(a), Some(n)) => Some(From { address: a, name: n }),
        _ => None,
    }
}

/// Reads a recipient out of a JSON tree, exactly as [`parse_to`] says.
pub fn to_from_json(j: Json) -> (r: Option<To>)
    ensures
        r == parse_to(j),
{
    let ghost j0 = j;
    let mut entries = match j {
        Json::Obj(es) => es,
        _ => { return None; },
    };
    let ghost orig = entries@;
    let k_address = String::from_str("address");
    let k_name = String::from_str("name");
    let mut s_address: Option<Json> = None;
    let mut s_name: Option<Json> = None;
    let ghost mut rem: int = orig.len() as int;
    while entries.len() > 0
        invariant
            k_address@ == "address"@,
            k_name@ == "name"@,
            0 <= rem <= orig.len(),
            entries@ == orig.take(rem),
            s_address == lookup(orig.skip(rem), "address"@),
            s_name == lookup(orig.skip(rem), "name"@),
        decreases entries.len(),
    {
        let (k, v) = entries.pop().unwrap();
        proof {
            reveal_strlit("address");
            reveal_strlit("name");
            assert("address"@.len() == 7);
            assert("name"@.len() == 4);
            assert(k == orig[rem - 1].0);
            assert(v == orig[rem - 1].1);
            assert(orig.take(rem).drop_last() =~= orig.take(rem - 1));
            assert(orig.skip(rem - 1)[0] == orig[rem - 1]);
            assert(orig.skip(rem - 1).skip(1) =~= orig.skip(rem));
        }
        if k == k_address {
            s_address = Some(v);
        } else if k == k_name {
            s_name = Some(v);
        }
        proof {
            rem = rem - 1;
        }
    }
    proof {
        assert(orig.take(rem).len() == 0);
        assert(rem == 0);
        assert(orig.skip(0) =~= orig);
    }
    match (take_str(s_address), take_str(s_name)) {
        (Some(a), Some(n)) => Some(To { address: a, name: n }),
        _ => None,
    }
}

/// Reads a recipient list out of a JSON array, item by item and in order;
/// fails if and only if some item is not a recipient.
fn to_list_from_json(items: Vec<Json>) -> (r: Option<Vec<To>>)
    ensures
        match r {
            Some(ts) => to_items_ok(items@) && to_items_match(ts@, items@),
            None => !to_items_ok(items@),
        },
{
    let ghost orig = items@;
    let mut rest = items;
    let mut out: Vec<To> = Vec::new();
    let mut failed = false;
    while !failed && rest.len() > 0
        invariant
            !failed ==> out@.len() + rest@.len() == orig.len(),
            !failed ==> rest@ == orig.skip(out@.len() as int),
            !failed ==> forall|i: int|
                0 <= i < out@.len() ==> Some(#[trigger] out@[i]) == parse_to(orig[i]),
            failed ==> !to_items_ok(orig),
        decreases rest.len(),
    {
        let ghost n = out@.len() as int;
        let it = rest.remove(0);
        proof {
            assert(orig.skip(n)[0] == orig[n]);
            assert(orig.skip(n).remove(0) =~= orig.skip(n + 1));
        }
        match to_from_json(it) {
            Some(t) => {
                out.push(t);
                proof {
                    assert(Some(out@[n]) == parse_to(orig[n]));
                }
            },
            None => {
                failed = true;
                proof {
                    assert(parse_to(orig[n]) is None);
                }
            },
        }
    }
    if failed {
        return None;
    }
    proof {
        assert(out@.len() == orig.len());
        assert forall|i: int| 0 <= i < orig.len() implies parse_to(#[trigger] orig[i]) is Some by {
            assert(Some(out@[i]) == parse_to(orig[i]));
        }
    }
    Some(out)
}

/// Reads a string list out of a JSON array, item by item and in order;
/// fails if and only if some item is not a string.
fn str_list_from_json(items: Vec<Json>) -> (r: Option<Vec<String>>)
    ensures
        match r {
            Some(ss) => str_items_ok(items@) && str_items_match(ss@, items@),
            None => !str_items_ok(items@),
        },
{
    let ghost orig = items@;
    let mut rest = items;
    let mut out: Vec<String> = Vec::new();
    let mut failed = false;
    while !failed && rest.len() > 0
        invariant
            !failed ==> out@.len() + rest@.len() == orig.len(),
            !failed ==> rest@ == orig.skip(out@.len() as int),
            !failed ==> forall|i: int|
                0 <= i < out@.len() ==> orig[i] == Json::Str(#[trigger] out@[i]),
            failed ==> !str_items_ok(orig),
        decreases rest.len(),
    {
        let ghost n = out@.len() as int;
        let it = rest.remove(0);
        proof {
            assert(orig.skip(n)[0] == orig[n]);
            assert(orig.skip(n).remove(0) =~= orig.skip(n + 1));
        }
        match it {
            Json::Str(s) => {
                out.push(s);
                proof {
                    assert(orig[n] == Json::Str(out@[n]));
                }
            },
            _ => {
                failed = true;
                proof {
                    assert(!(orig[n] matches Json::Str(_)));
                }
            },
        }
    }
    if failed {
        return None;
    }
    proof {
        assert(out@.len() == orig.len());
        assert forall|i: int| 0 <= i < orig.len() implies #[trigger] orig[i] matches Json::Str(_) by {
            assert(orig[i] == Json::Str(out@[i]));
        }
    }
    Some(out)
}

/// Whether a JSON tree has the full shape of a message: every field
/// present with the right kind, the sender an object, the recipient list an
/// array of recipients, the HTML list an array of strings, and the opaque
/// lists arrays.
pub open spec fn message_shape_ok(j: Json) -> bool {
    &&& req_str(get_of(j, "@context"@)) is Some
    &&& req_str(get_of(j, "@id"@)) is Some
    &&& req_str(get_of(j, "@type"@)) is Some
    &&& req_str(get_of(j, "id"@)) is Some
    &&& req_str(get_of(j, "account_id"@)) is Some
    &&& req_str(get_of(j, "msgid"@)) is Some
    &&& match get_of(j, "from"@) {
        Some(jf) => parse_from(jf) is Some,
        None => false,
    }
    &&& match get_of(j, "to"@) {
        Some(Json::Arr(v)) => to_items_ok(v@),
        _ => false,
    }
    &&& get_of(j, "cc"@) matches Some(Json::Arr(_))
    &&& get_of(j, "bcc"@) matches Some(Json::Arr(_))
    &&& req_str(get_of(j, "subject"@)) is Some
    &&& req_bool(get_of(j, "seen"@)) is Some
    &&& req_bool(get_of(j, "flagged"@)) is Some
    &&& get_of(j, "verification_results"@) matches Some(Json::Arr(_))
    &&& req_bool(get_of(j, "retention"@)) is Some
    &&& req_num(get_of(j, "retention_date"@)) is Some
    &&& req_str(get_of(j, "text"@)) is Some
    &&& match get_of(j, "html"@) {
        Some(Json::Arr(v)) => str_items_ok(v@),
        _ => false,
    }
    &&& req_bool(get_of(j, "has_attachments"@)) is Some
    &&& get_of(j, "attachments"@) matches Some(Json::Arr(_))
    &&& req_str(get_of(j, "download_url"@)) is Some
    &&& req_num(get_of(j, "size"@)) is Some
    &&& req_str(get_of(j, "created_at"@)) is Some
    &&& req_str(get_of(j, "updated_at"@)) is Some
}

/// How a message relates to the JSON tree it was read from: every field is
/// exactly what the tree's corresponding field says, the lists item by item
/// and in order.
pub open spec fn message_matches(m: Message, j: Json) -> bool {
    &&& Some(m.context) == req_str(get_of(j, "@context"@))
    &&& Some(m.id) == req_str(get_of(j, "@id"@))
    &&& Some(m.type_field) == req_str(get_of(j, "@type"@))
    &&& Some(m.id2) == req_str(get_of(j, "id"@))
    &&& Some(m.account_id) == req_str(get_of(j, "account_id"@))
    &&& Some(m.msg_id) == req_str(get_of(j, "msgid"@))
    &&& match get_of(j, "from"@) {
        Some(jf) => Some(m.from) == parse_from(jf),
        None => false,
    }
    &&& match get_of(j, "to"@) {
        Some(Json::Arr(v)) => to_items_match(m.to@, v@),
        _ => false,
    }
    &&& match get_of(j, "cc"@) {
        Some(Json::Arr(v)) => m.cc@ == v@,
        _ => false,
    }
    &&& match get_of(j, "bcc"@) {
        Some(Json::Arr(v)) => m.bcc@ == v@,
        _ => false,
    }
    &&& Some(m.subject) == req_str(get_of(j, "subject"@))
    &&& Some(m.seen) == req_bool(get_of(j, "seen"@))
    &&& Some(m.flagged) == req_bool(get_of(j, "flagged"@))
    &&& match get_of(j, "verification_results"@) {
        Some(Json::Arr(v)) => m.verification_results@ == v@,
        _ => false,
    }
    &&& Some(m.retention) == req_bool(get_of(j, "retention"@))
    &&& Some(m.retention_date) == req_num(get_of(j, "retention_date"@))
    &&& Some(m.text) == req_str(get_of(j, "text"@))
    &&& match get_of(j, "html"@) {
        Some(Json::Arr(v)) => str_items_match(m.html@, v@),
        _ => false,
    }
    &&& Some(m.has_attachments) == req_bool(get_of(j, "has_attachments"@))
    &&& match get_of(j, "attachments"@) {
        Some(Json::Arr(v)) => m.attachments@ == v@,
        _ => false,
    }
    &&& Some(m.download_url) == req_str(get_of(j, "download_url"@))
    &&& Some(m.size) == req_num(get_of(j, "size"@))
    &&& Some(m.created_at) == req_str(get_of(j, "created_at"@))
    &&& Some(m.updated_at) == req_str(get_of(j, "updated_at"@))
}

/// Reads a message out of a JSON tree: succeeds if and only if the tree has
/// the full shape of a message, and then every field is read exactly as
/// [`message_matches`] says.
pub fn message_from_json(j: Json) -> (r: Option<Message>)
    ensures
        match r {
            Some(m) => message_shape_ok(j) && message_matches(m, j),
            None => !message_shape_ok(j),
        },
{
    let ghost j0 = j;
    let mut entries = match j {
        Json::Obj(es) => es,
        _ => {
            proof {
                reveal_strlit("@context");
            }
            return None;
        },
    };
    let ghost orig = entries@;
    let k_context = String::from_str("@context");
    let k_id = String::from_str("@id");
    let k_type = String::from_str("@type");
    let k_id2 = String::from_str("id");
    let k_account = String::from_str("account_id");
    let k_msgid = String::from_str("msgid");
    let k_from = String::from_str("from");
    let k_to = String::from_str("to");
    let k_cc = String::from_str("cc");
    let k_bcc = String::from_str("bcc");
    let k_subject = String::from_str("subject");
    let k_seen = String::from_str("seen");
    let k_flagged = String::from_str("flagged");
    let k_verif = String::from_str("verification_results");
    let k_retention = String::from_str("retention");
    let k_retdate = String::from_str("retention_date");
    let k_text = String::from_str("text");
    let k_html = String::from_str("html");
    let k_hasatt = String::from_str("has_attachments");
    let k_att = String::from_str("attachments");
    let k_durl = String::from_str("download_url");
    let k_size = String::from_str("size");
    let k_created = String::from_str("created_at");
    let k_updated = String::from_str("updated_at");
    let mut s_context: Option<Json> = None;
    let mut s_id: Option<Json> = None;
    let mut s_type: Option<Json> = None;
    let mut s_id2: Option<Json> = None;
    let mut s_account: Option<Json> = None;
    let mut s_msgid: Option<Json> = None;
    let mut s_from: Option<Json> = None;
    let mut s_to: Option<Json> = None;
    let mut s_cc: Option<Json> = None;
    let mut s_bcc: Option<Json> = None;
    let mut s_subject: Option<Json> = None;
    let mut s_seen: Option<Json> = None;
    let mut s_flagged: Option<Json> = None;
    let mut s_verif: Option<Json> = None;
    let mut s_retention: Option<Json> = None;
    let mut s_retdate: Option<Json> = None;
    let mut s_text: Option<Json> = None;
    let mut s_html: Option<Json> = None;
    let mut s_hasatt: Option<Json> = None;
    let mut s_att: Option<Json> = None;
    let mut s_durl: Option<Json> = None;
    let mut s_size: Option<Json> = None;
    let mut s_created: Option<Json> = None;
    let mut s_updated: Option<Json> = None;
    let ghost mut rem: int = orig.len() as int;
    while entries.len() > 0
        invariant
            k_context@ == "@context"@,
            k_id@ == "@id"@,
            k_type@ == "@type"@,
            k_id2@ == "id"@,
            k_account@ == "account_id"@,
            k_msgid@ == "msgid"@,
            k_from@ == "from"@,
            k_to@ == "to"@,
            k_cc@ == "cc"@,
            k_bcc@ == "bcc"@,
            k_subject@ == "subject"@,
            k_seen@ == "seen"@,
            k_flagged@ == "flagged"@,
            k_verif@ == "verification_results"@,
            k_retention@ == "retention"@,
            k_retdate@ == "retention_date"@,
            k_text@ == "text"@,
            k_html@ == "html"@,
            k_hasatt@ == "has_attachments"@,
            k_att@ == "attachments"@,
            k_durl@ == "download_url"@,
            k_size@ == "size"@,
            k_created@ == "created_at"@,
            k_updated@ == "updated_at"@,
            0 <= rem <= orig.len(),
            entries@ == orig.take(rem),
            s_context == lookup(orig.skip(rem), "@context"@),
            s_id == lookup(orig.skip(rem), "@id"@),
            s_type == lookup(orig.skip(rem), "@type"@),
            s_id2 == lookup(orig.skip(rem), "id"@),
            s_account == lookup(orig.skip(rem), "account_id"@),
            s_msgid == lookup(orig.skip(rem), "msgid"@),
            s_from == lookup(orig.skip(rem), "from"@),
            s_to == lookup(orig.skip(rem), "to"@),
            s_cc == lookup(orig.skip(rem), "cc"@),
            s_bcc == lookup(orig.skip(rem), "bcc"@),
            s_subject == lookup(orig.skip(rem), "subject"@),
            s_seen == lookup(orig.skip(rem), "seen"@),
            s_flagged == lookup(orig.skip(rem), "flagged"@),
            s_verif == lookup(orig.skip(rem), "verification_results"@),
            s_retention == lookup(orig.skip(rem), "retention"@),
            s_retdate == lookup(orig.skip(rem), "retention_date"@),
            s_text == lookup(orig.skip(rem), "text"@),
            s_html == lookup(orig.skip(rem), "html"@),
            s_hasatt == lookup(orig.skip(rem), "has_attachments"@),
            s_att == lookup(orig.skip(rem), "attachments"@),
            s_durl == lookup(orig.skip(rem), "download_url"@),
            s_size == lookup(orig.skip(rem), "size"@),
            s_created == lookup(orig.skip(rem), "created_at"@),
            s_updated == lookup(orig.skip(rem), "updated_at"@),
        decreases entries.len(),
    {
        let (k, v) = entries.pop().unwrap();
        proof {
            reveal_strlit("@context");
            reveal_strlit("@id");
            reveal_strlit("@type");
            reveal_strlit("id");
            reveal_strlit("account_id");
            reveal_strlit("msgid");
            reveal_strlit("from");
            reveal_strlit("to");
            reveal_strlit("cc");
            reveal_strlit("bcc");
            reveal_strlit("subject");
            reveal_strlit("seen");
            reveal_strlit("flagged");
            reveal_strlit("verification_results");
            reveal_strlit("retention");
            reveal_strlit("retention_date");
            reveal_strlit("text");
            reveal_strlit("html");
            reveal_strlit("has_attachments");
            reveal_strlit("attachments");
            reveal_strlit("download_url");
            reveal_strlit("size");
            reveal_strlit("created_at");
            reveal_strlit("updated_at");
            assert("@context"@.len() == 8);
            assert("@id"@.len() == 3);
            assert("@type"@.len() == 5);
            assert("id"@.len() == 2);
            assert("account_id"@.len() == 10);
            assert("msgid"@.len() == 5);
            assert("from"@.len() == 4);
            assert("to"@.len() == 2);
            assert("cc"@.len() == 2);
            assert("bcc"@.len() == 3);
            assert("subject"@.len() == 7);
            assert("seen"@.len() == 4);
            assert("flagged"@.len() == 7);
            assert("verification_results"@.len() == 20);
            assert("retention"@.len() == 9);
            assert("retention_date"@.len() == 14);
            assert("text"@.len() == 4);
            assert("html"@.len() == 4);
            assert("has_attachments"@.len() == 15);
            assert("attachments"@.len() == 11);
            assert("download_url"@.len() == 12);
            assert("size"@.len() == 4);
            assert("created_at"@.len() == 10);
            assert("updated_at"@.len() == 10);
            assert("id"@[0] == 'i');
            assert("to"@[0] == 't');
            assert("cc"@[0] == 'c');
            assert("@id"@[0] == '@');
            assert("bcc"@[0] == 'b');
            assert("from"@[0] == 'f');
            assert("seen"@[0] == 's');
            assert("text"@[0] == 't');
            assert("html"@[0] == 'h');
            assert("size"@[0] == 's');
            assert("seen"@[1] == 'e');
            assert("size"@[1] == 'i');
            assert("@type"@[0] == '@');
            assert("msgid"@[0] == 'm');
            assert("subject"@[0] == 's');
            assert("flagged"@[0] == 'f');
            assert("account_id"@[0] == 'a');
            assert("created_at"@[0] == 'c');
            assert("updated_at"@[0] == 'u');
            assert(k == orig[rem - 1].0);
            assert(v == orig[rem - 1].1);
            assert(orig.take(rem).drop_last() =~= orig.take(rem - 1));
            assert(orig.skip(rem - 1)[0] == orig[rem - 1]);
            assert(orig.skip(rem - 1).skip(1) =~= orig.skip(rem));
        }
        if k == k_context {
            s_context = Some(v);
        } else if k == k_id {
            s_id = Some(v);
        } else if k == k_type {
            s_type = Some(v);
        } else if k == k_id2 {
            s_id2 = Some(v);
        } else if k == k_account {
            s_account = Some(v);
        } else if k == k_msgid {
            s_msgid = Some(v);
        } else if k == k_from {
            s_from = Some(v);
        } else if k == k_to {
            s_to = Some(v);
        } else if k == k_cc {
            s_cc = Some(v);
        } else if k == k_bcc {
            s_bcc = Some(v);
        } else if k == k_subject {
            s_subject = Some(v);
        } else if k == k_seen {
            s_seen = Some(v);
        } else if k == k_flagged {
            s_flagged = Some(v);
        } else if k == k_verif {
            s_verif = Some(v);
        } else if k == k_retention {
            s_retention = Some(v);
        } else if k == k_retdate {
            s_retdate = Some(v);
        } else if k == k_text {
            s_text = Some(v);
        } else if k == k_html {
            s_html = Some(v);
        } else if k == k_hasatt {
            s_hasatt = Some(v);
        } else if k == k_att {
            s_att = Some(v);
        } else if k == k_durl {
            s_durl = Some(v);
        } else if k == k_size {
            s_size = Some(v);
        } else if k == k_created {
            s_created = Some(v);
        } else if k == k_updated {
            s_updated = Some(v);
        }
        proof {
            rem = rem - 1;
        }
    }
    proof {
        assert(orig.take(rem).len() == 0);
        assert(rem == 0);
        assert(orig.skip(0) =~= orig);
    }
    let f_context = match take_str(s_context) {
        Some(x) => x,
        None => { return None; },
    };
    let f_id = match take_str(s_id) {
        Some(x) => x,
        None => { return None; },
    };
    let f_type = match take_str(s_type) {
        Some(x) => x,
        None => { return None; },
    };
    let f_id2 = match take_str(s_id2) {
        Some(x) => x,
        None => { return None; },
    };
    let f_account = match take_str(s_account) {
        Some(x) => x,
        None => { return None; },
    };
    let f_msgid = match take_str(s_msgid) {
        Some(x) => x,
        None => { return None; },
    };
    let f_from = match s_from {
        Some(jf) => match from_from_json(jf) {
            Some(x) => x,
            None => { return None; },
        },
        None => { return None; },
    };
    let f_to = match s_to {
        Some(Json::Arr(v)) => match to_list_from_json(v) {
            Some(x) => x,
            None => { return None; },
        },
        _ => { return None; },
    };
    let f_cc = match s_cc {
        Some(Json::Arr(v)) => v,
        _ => { return None; },
    };
    let f_bcc = match s_bcc {
        Some(Json::Arr(v)) => v,
        _ => { return None; },
    };
    let f_subject = match take_str(s_subject) {
        Some(x) => x,
        None => { return None; },
    };
    let f_seen = match take_bool(s_seen) {
        Some(x) => x,
        None => { return None; },
    };
    let f_flagged = match take_bool(s_flagged) {
        Some(x) => x,
        None => { return None; },
    };
    let f_verif = match s_verif {
        Some(Json::Arr(v)) => v,
        _ => { return None; },
    };
    let f_retention = match take_bool(s_retention) {
        Some(x) => x,
        None => { return None; },
    };
    let f_retdate = match take_num(s_retdate) {
        Some(x) => x,
        None => { return None; },
    };
    let f_text = match take_str(s_text) {
        Some(x) => x,
        None => { return None; },
    };
    let f_html = match s_html {
        Some(Json::Arr(v)) => match str_list_from_json(v) {
            Some(x) => x,
            None => { return None; },
        },
        _ => { return None; },
    };
    let f_hasatt = match take_bool(s_hasatt) {
        Some(x) => x,
        None => { return None; },
    };
    let f_att = match s_att {
        Some(Json::Arr(v)) => v,
        _ => { return None; },
    };
    let f_durl = match take_str(s_durl) {
        Some(x) => x,
        None => { return None; },
    };
    let f_size = match take_num(s_size) {
        Some(x) => x,
        None => { return None; },
    };
    let f_created = match take_str(s_created) {
        Some(x) => x,
        None => { return None; },
    };
    let f_updated = match take_str(s_updated) {
        Some(x) => x,
        None => { return None; },
    };
    Some(
        Message {
            context: f_context,
            id: f_id,
            type_field: f_type,
            id2: f_id2,
            account_id: f_account,
            msg_id: f_msgid,
            from: f_from,
            to: f_to,
            cc: f_cc,
            bcc: f_bcc,
            subject: f_subject,
            seen: f_seen,
            flagged: f_flagged,
            verification_results: f_verif,
            retention: f_retention,
            retention_date: f_retdate,
            text: f_text,
            html: f_html,
            has_attachments: f_hasatt,
            attachments: f_att,
            download_url: f_durl,
            size: f_size,
            created_at: f_created,
            updated_at: f_updated,
        },
    )
}

/// Interprets the response of the single-message endpoint, under the same
/// uniform rule as every decoder: `Status` with the raw body on non-success,
/// `Decode` with the raw body on a mis-shaped body, otherwise the message,
/// read exactly as [`message_matches`] says.
pub fn decode_message(status: u16, body: String) -> (r: Result<Message, Error>)
    ensures
        !success_status(status) ==> r == Err::<Message, Error>(Error::Status(status, body)),
        success_status(status) ==> match json_of(body@) {
            None => is_decode_err(r, body),
            Some(jv) => if message_shape_ok(jv) {
                r matches Ok(m) && message_matches(m, jv)
            } else {
                is_decode_err(r, body)
            },
        },
{
    if !(200 <= status && status < 300) {
        return Err(Error::Status(status, body));
    }
    match crate::json::parse_json(body.as_str()) {
        None => Err(Error::Decode(String::from_str("the body is not valid JSON"), body)),
        Some(j) => match message_from_json(j) {
            Some(m) => Ok(m),
            None => Err(
                Error::Decode(String::from_str("the body is not the shape of a message"), body),
            ),
        },
    }
}

/// Whether a JSON tree is a well-shaped page of messages: a collection
/// envelope whose every member has the shape of a message, holding no more
/// members than the total count.
pub open spec fn messages_ok(jv: Json) -> bool {
    &&& envelope_ok(jv)
    &&& forall|i: int|
        0 <= i < members_field(jv).unwrap().len() ==> message_shape_ok(
            #[trigger] members_field(jv).unwrap()[i],
        )
    &&& members_field(jv).unwrap().len() <= total_field(jv).unwrap()
}

/// How a decoded page of messages relates to the JSON tree it came from.
pub open spec fn messages_match(c: &HydraCollection<Message>, jv: Json) -> bool {
    &&& c.members@.len() == members_field(jv).unwrap().len()
    &&& forall|i: int|
        0 <= i < c.members@.len() ==> message_matches(
            #[trigger] c.members@[i],
            members_field(jv).unwrap()[i],
        )
    &&& Some(c.total_items) == total_field(jv)
    &&& Some(c.view) == view_field(jv)
    &&& Some(c.search) == search_field(jv)
}

/// Interprets the response of the message listing, like the domain listing:
/// the page comes back well-formed, members in order, exactly as
/// [`messages_match`] says.
#[verifier::rlimit(100)]
pub fn decode_messages(status: u16, body: String) -> (r: Result<HydraCollection<Message>, Error>)
    ensures
        !success_status(status) ==> r == Err::<HydraCollection<Message>, Error>(
            Error::Status(status, body),
        ),
        success_status(status) ==> match json_of(body@) {
            None => is_decode_err(r, body),
            Some(jv) => if messages_ok(jv) {
                r matches Ok(c) && messages_match(&c, jv) && collection_wf(&c)
            } else {
                is_decode_err(r, body)
            },
        },
{
    if !(200 <= status && status < 300) {
        return Err(Error::Status(status, body));
    }
    let parsed = match crate::json::parse_json(body.as_str()) {
        Some(j) => j,
        None => { return Err(Error::Decode(String::from_str("the body is not valid JSON"), body)); },
    };
    let ghost jv = parsed;
    let (mut items, total, view, search) = match split_envelope(parsed) {
        Some(t) => t,
        None => {
            return Err(
                Error::Decode(String::from_str("the body is not a collection envelope"), body),
            );
        },
    };
    let ghost orig_items = items@;
    let mut members: Vec<Message> = Vec::new();
    while items.len() > 0
        invariant
            success_status(status),
            Some(jv) == json_of(body@),
            Some(orig_items) == members_field(jv),
            Some(total) == total_field(jv),
            Some(view) == view_field(jv),
            Some(search) == search_field(jv),
            members@.len() + items@.len() == orig_items.len(),
            items@ == orig_items.skip(members@.len() as int),
            forall|i: int|
                0 <= i < members@.len() ==> message_shape_ok(#[trigger] orig_items[i]),
            forall|i: int|
                0 <= i < members@.len() ==> message_matches(#[trigger] members@[i], orig_items[i]),
        decreases items.len(),
    {
        let ghost n = members@.len() as int;
        let it = items.remove(0);
        proof {
            assert(orig_items.skip(n)[0] == orig_items[n]);
            assert(orig_items.skip(n).remove(0) =~= orig_items.skip(n + 1));
        }
        match message_from_json(it) {
            Some(m) => {
                proof {
                    assert(message_shape_ok(orig_items[n]));
                    assert(message_matches(m, orig_items[n]));
                }
                let ghost pre = members@;
                members.push(m);
                proof {
                    assert(members@ == pre.push(m));
                    assert forall|i: int|
                        0 <= i < members@.len() implies message_matches(
                        #[trigger] members@[i],
                        orig_items[i],
                    ) by {
                        if i < pre.len() as int {
                            assert(members@[i] == pre[i]);
                            assert(message_matches(pre[i], orig_items[i]));
                        } else {
                            assert(i == n);
                            assert(members@[i] == m);
                            assert(message_matches(m, orig_items[n]));
                        }
                    }
                }
            },
            None => {
                proof {
                    assert(members_field(jv).unwrap()[n] == orig_items[n]);
                    assert(!message_shape_ok(members_field(jv).unwrap()[n]));
                    assert(!messages_ok(jv));
                }
                return Err(
                    Error::Decode(
                        String::from_str("a member of the page is not a message"),
                        body,
                    ),
                );
            },
        }
    }
    proof {
        assert(items@.len() == 0);
        assert(members@.len() == orig_items.len());
    }
    if !(total >= 0 && (members.len() as u64) <= (total as u64)) {
        proof {
            assert(members_field(jv).unwrap().len() > total_field(jv).unwrap());
            assert(!messages_ok(jv));
        }
        return Err(
            Error::Decode(
                String::from_str("the page holds more members than the total count"),
                body,
            ),
        );
    }
    proof {
        assert forall|i: int|
            0 <= i < members_field(jv).unwrap().len() implies message_shape_ok(
            #[trigger] members_field(jv).unwrap()[i],
        ) by {
            assert(message_matches(members@[i], orig_items[i]));
            assert(message_shape_ok(orig_items[i]));
        }
        assert(messages_ok(jv));
    }
    Ok(HydraCollection { members, total_items: total, view, search })
}

/// Writes a sender back as a JSON tree. Reading the result restores the
/// sender exactly.
pub fn from_to_json(f: From) -> (r: Json)
    ensures
        parse_from(r) == Some(f),
{
    let ghost f0 = f;
    let mut es: Vec<(String, Json)> = Vec::new();
    es.push((String::from_str("address"), Json::Str(f.address)));
    es.push((String::from_str("name"), Json::Str(f.name)));
    let r = Json::Obj(es);
    proof {
        reveal_with_fuel(lookup, 4);
        reveal_strlit("address");
        reveal_strlit("name");
        assert("address"@.len() == 7);
        assert("name"@.len() == 4);
        assert(get_of(r, "address"@) == Some(Json::Str(f0.address)));
        assert(get_of(r, "name"@) == Some(Json::Str(f0.name)));
    }
    r
}

/// Writes a recipient back as a JSON tree. Reading the result restores the
/// recipient exactly.
pub fn to_to_json(t: To) -> (r: Json)
    ensures
        parse_to(r) == Some(t),
{
    let ghost t0 = t;
    let mut es: Vec<(String, Json)> = Vec::new();
    es.push((String::from_str("address"), Json::Str(t.address)));
    es.push((String::from_str("name"), Json::Str(t.name)));
    let r = Json::Obj(es);
    proof {
        reveal_with_fuel(lookup, 4);
        reveal_strlit("address");
        reveal_strlit("name");
        assert("address"@.len() == 7);
        assert("name"@.len() == 4);
        assert(get_of(r, "address"@) == Some(Json::Str(t0.address)));
        assert(get_of(r, "name"@) == Some(Json::Str(t0.name)));
    }
    r
}

/// Writes a recipient list back as a JSON array, item by item and in order.
fn to_list_to_json(ts: Vec<To>) -> (r: Vec<Json>)
    ensures
        to_items_ok(r@),
        to_items_match(ts@, r@),
{
    let ghost orig = ts@;
    let mut rest = ts;
    let mut out: Vec<Json> = Vec::new();
    while rest.len() > 0
        invariant
            out@.len() + rest@.len() == orig.len(),
            rest@ == orig.skip(out@.len() as int),
            forall|i: int|
                0 <= i < out@.len() ==> parse_to(#[trigger] out@[i]) == Some(orig[i]),
        decreases rest.len(),
    {
        let ghost n = out@.len() as int;
        let t = rest.remove(0);
        proof {
            assert(orig.skip(n)[0] == orig[n]);
            assert(orig.skip(n).remove(0) =~= orig.skip(n + 1));
        }
        let jt = to_to_json(t);
        out.push(jt);
        proof {
            assert(parse_to(out@[n]) == Some(orig[n]));
        }
    }
    proof {
        assert(out@.len() == orig.len());
        assert forall|i: int| 0 <= i < out@.len() implies parse_to(#[trigger] out@[i]) is Some by {
            assert(parse_to(out@[i]) == Some(orig[i]));
        }
        assert forall|i: int| 0 <= i < out@.len() implies Some(#[trigger] orig[i]) == parse_to(
            out@[i],
        ) by {
            assert(parse_to(out@[i]) == Some(orig[i]));
        }
    }
    out
}

/// Writes a string list back as a JSON array, item by item and in order.
fn str_list_to_json(ss: Vec<String>) -> (r: Vec<Json>)
    ensures
        str_items_ok(r@),
        str_items_match(ss@, r@),
{
    let ghost orig = ss@;
    let mut rest = ss;
    let mut out: Vec<Json> = Vec::new();
    while rest.len() > 0
        invariant
            out@.len() + rest@.len() == orig.len(),
            rest@ == orig.skip(out@.len() as int),
            forall|i: int| 0 <= i < out@.len() ==> #[trigger] out@[i] == Json::Str(orig[i]),
        decreases rest.len(),
    {
        let ghost n = out@.len() as int;
        let s = rest.remove(0);
        proof {
            assert(orig.skip(n)[0] == orig[n]);
            assert(orig.skip(n).remove(0) =~= orig.skip(n + 1));
        }
        out.push(Json::Str(s));
        proof {
            assert(out@[n] == Json::Str(orig[n]));
        }
    }
    proof {
        assert(out@.len() == orig.len());
    }
    out
}

/// Writes a message back as a JSON tree. Reading the result restores the
/// message exactly: the round trip loses nothing.
#[verifier::rlimit(100)]
pub fn message_to_json(m: Message) -> (r: Json)
    ensures
        message_shape_ok(r),
        message_matches(m, r),
{
    let ghost m0 = m;
    let jf = from_to_json(m.from);
    let jto = to_list_to_json(m.to);
    let jhtml = str_list_to_json(m.html);
    let mut es: Vec<(String, Json)> = Vec::new();
    es.push((String::from_str("@context"), Json::Str(m.context)));
    es.push((String::from_str("@id"), Json::Str(m.id)));
    es.push((String::from_str("@type"), Json::Str(m.type_field)));
    es.push((String::from_str("id"), Json::Str(m.id2)));
    es.push((String::from_str("account_id"), Json::Str(m.account_id)));
    es.push((String::from_str("msgid"), Json::Str(m.msg_id)));
    es.push((String::from_str("from"), jf));
    es.push((String::from_str("to"), Json::Arr(jto)));
    es.push((String::from_str("cc"), Json::Arr(m.cc)));
    es.push((String::from_str("bcc"), Json::Arr(m.bcc)));
    es.push((String::from_str("subject"), Json::Str(m.subject)));
    es.push((String::from_str("seen"), Json::Bool(m.seen)));
    es.push((String::from_str("flagged"), Json::Bool(m.flagged)));
    es.push((String::from_str("verification_results"), Json::Arr(m.verification_results)));
    es.push((String::from_str("retention"), Json::Bool(m.retention)));
    es.push((String::from_str("retention_date"), Json::Num(m.retention_date)));
    es.push((String::from_str("text"), Json::Str(m.text)));
    es.push((String::from_str("html"), Json::Arr(jhtml)));
    es.push((String::from_str("has_attachments"), Json::Bool(m.has_attachments)));
    es.push((String::from_str("attachments"), Json::Arr(m.attachments)));
    es.push((String::from_str("download_url"), Json::Str(m.download_url)));
    es.push((String::from_str("size"), Json::Num(m.size)));
    es.push((String::from_str("created_at"), Json::Str(m.created_at)));
    es.push((String::from_str("updated_at"), Json::Str(m.updated_at)));
    let r = Json::Obj(es);
    proof {
        reveal_with_fuel(lookup, 26);
        reveal_strlit("@context");
        reveal_strlit("@id");
        reveal_strlit("@type");
        reveal_strlit("id");
        reveal_strlit("account_id");
        reveal_strlit("msgid");
        reveal_strlit("from");
        reveal_strlit("to");
        reveal_strlit("cc");
        reveal_strlit("bcc");
        reveal_strlit("subject");
        reveal_strlit("seen");
        reveal_strlit("flagged");
        reveal_strlit("verification_results");
        reveal_strlit("retention");
        reveal_strlit("retention_date");
        reveal_strlit("text");
        reveal_strlit("html");
        reveal_strlit("has_attachments");
        reveal_strlit("attachments");
        reveal_strlit("download_url");
        reveal_strlit("size");
        reveal_strlit("created_at");
        reveal_strlit("updated_at");
        assert("@context"@.len() == 8);
        assert("@id"@.len() == 3);
        assert("@type"@.len() == 5);
        assert("id"@.len() == 2);
        assert("account_id"@.len() == 10);
        assert("msgid"@.len() == 5);
        assert("from"@.len() == 4);
        assert("to"@.len() == 2);
        assert("cc"@.len() == 2);
        assert("bcc"@.len() == 3);
        assert("subject"@.len() == 7);
        assert("seen"@.len() == 4);
        assert("flagged"@.len() == 7);
        assert("verification_results"@.len() == 20);
        assert("retention"@.len() == 9);
        assert("retention_date"@.len() == 14);
        assert("text"@.len() == 4);
        assert("html"@.len() == 4);
        assert("has_attachments"@.len() == 15);
        assert("attachments"@.len() == 11);
        assert("download_url"@.len() == 12);
        assert("size"@.len() == 4);
        assert("created_at"@.len() == 10);
        assert("updated_at"@.len() == 10);
        assert("id"@[0] == 'i');
        assert("to"@[0] == 't');
        assert("cc"@[0] == 'c');
        assert("@id"@[0] == '@');
        assert("bcc"@[0] == 'b');
        assert("from"@[0] == 'f');
        assert("seen"@[0] == 's');
        assert("text"@[0] == 't');
        assert("html"@[0] == 'h');
        assert("size"@[0] == 's');
        assert("seen"@[1] == 'e');
        assert("size"@[1] == 'i');
        assert("@type"@[0] == '@');
        assert("msgid"@[0] == 'm');
        assert("subject"@[0] == 's');
        assert("flagged"@[0] == 'f');
        assert("account_id"@[0] == 'a');
        assert("created_at"@[0] == 'c');
        assert("updated_at"@[0] == 'u');
        assert(get_of(r, "@context"@) == Some(Json::Str(m0.context)));
        assert(get_of(r, "@id"@) == Some(Json::Str(m0.id)));
        assert(get_of(r, "@type"@) == Some(Json::Str(m0.type_field)));
        assert(get_of(r, "id"@) == Some(Json::Str(m0.id2)));
        assert(get_of(r, "account_id"@) == Some(Json::Str(m0.account_id)));
        assert(get_of(r, "msgid"@) == Some(Json::Str(m0.msg_id)));
        assert(get_of(r, "from"@) == Some(jf));
        assert(get_of(r, "to"@) == Some(Json::Arr(jto)));
        assert(get_of(r, "cc"@) == Some(Json::Arr(m0.cc)));
        assert(get_of(r, "bcc"@) == Some(Json::Arr(m0.bcc)));
        assert(get_of(r, "subject"@) == Some(Json::Str(m0.subject)));
        assert(get_of(r, "seen"@) == Some(Json::Bool(m0.seen)));
        assert(get_of(r, "flagged"@) == Some(Json::Bool(m0.flagged)));
        assert(get_of(r, "verification_results"@) == Some(Json::Arr(m0.verification_results)));
        assert(get_of(r, "retention"@) == Some(Json::Bool(m0.retention)));
        assert(get_of(r, "retention_date"@) == Some(Json::Num(m0.retention_date)));
        assert(get_of(r, "text"@) == Some(Json::Str(m0.text)));
        assert(get_of(r, "html"@) == Some(Json::Arr(jhtml)));
        assert(get_of(r, "has_attachments"@) == Some(Json::Bool(m0.has_attachments)));
        assert(get_of(r, "attachments"@) == Some(Json::Arr(m0.attachments)));
        assert(get_of(r, "download_url"@) == Some(Json::Str(m0.download_url)));
        assert(get_of(r, "size"@) == Some(Json::Num(m0.size)));
        assert(get_of(r, "created_at"@) == Some(Json::Str(m0.created_at)));
        assert(get_of(r, "updated_at"@) == Some(Json::Str(m0.updated_at)));
    }
    r
}

/// Writes a page of messages back as a collection envelope. Reading the
/// result restores the page exactly; the page must be well-formed, and a
/// search mapping equal to the null node cannot be written back.
#[verifier::rlimit(50)]
pub fn messages_to_json(c: HydraCollection<Message>) -> (r: Json)
    requires
        collection_wf(&c),
        match c.search {
            Some(s) => search_encodable(&s),
            None => true,
        },
    ensures
        messages_ok(r),
        messages_match(&c, r),
{
    let ghost c0 = c;
    let ghost morig = c.members@;
    let mut rest = c.members;
    let mut items: Vec<Json> = Vec::new();
    while rest.len() > 0
        invariant
            items@.len() + rest@.len() == morig.len(),
            rest@ == morig.skip(items@.len() as int),
            forall|i: int|
                0 <= i < items@.len() ==> message_shape_ok(#[trigger] items@[i]) && message_matches(
                    morig[i],
                    items@[i],
                ),
        decreases rest.len(),
    {
        let ghost n = items@.len() as int;
        let m = rest.remove(0);
        proof {
            assert(morig.skip(n)[0] == morig[n]);
            assert(morig.skip(n).remove(0) =~= morig.skip(n + 1));
        }
        let jm = message_to_json(m);
        items.push(jm);
        proof {
            assert(items@[n] == jm);
        }
    }
    proof {
        assert(items@.len() == morig.len());
    }
    let ghost items0 = items@;
    let jview = match c.view {
        Some(v) => view_to_json(v),
        None => Json::Null,
    };
    let jsearch = match c.search {
        Some(s) => search_to_json(s),
        None => Json::Null,
    };
    let mut es: Vec<(String, Json)> = Vec::new();
    es.push((String::from_str("hydra:member"), Json::Arr(items)));
    es.push((String::from_str("hydra:totalItems"), Json::Num(c.total_items)));
    es.push((String::from_str("hydra:view"), jview));
    es.push((String::from_str("hydra:search"), jsearch));
    let r = Json::Obj(es);
    proof {
        reveal_with_fuel(lookup, 6);
        reveal_strlit("hydra:member");
        reveal_strlit("hydra:totalItems");
        reveal_strlit("hydra:view");
        reveal_strlit("hydra:search");
        assert("hydra:member"@.len() == 12);
        assert("hydra:totalItems"@.len() == 16);
        assert("hydra:view"@.len() == 10);
        assert("hydra:search"@.len() == 12);
        assert("hydra:member"@[6] == 'm');
        assert("hydra:search"@[6] == 's');
        assert(get_of(r, "hydra:member"@) == Some(Json::Arr(items)));
        assert(get_of(r, "hydra:totalItems"@) == Some(Json::Num(c0.total_items)));
        assert(get_of(r, "hydra:view"@) == Some(jview));
        assert(get_of(r, "hydra:search"@) == Some(jsearch));
        assert(members_field(r) == Some(items0));
        assert(total_field(r) == Some(c0.total_items));
        assert(view_field(r) == Some(c0.view));
        assert(search_field(r) == Some(c0.search));
        assert forall|i: int|
            0 <= i < members_field(r).unwrap().len() implies message_shape_ok(
            #[trigger] members_field(r).unwrap()[i],
        ) by {
            assert(message_shape_ok(items0[i]));
        }
        assert forall|i: int|
            0 <= i < c0.members@.len() implies message_matches(
            #[trigger] c0.members@[i],
            members_field(r).unwrap()[i],
        ) by {
            assert(message_matches(morig[i], items0[i]));
        }
        assert(messages_ok(r));
        assert(messages_match(&c0, r));
    }
    r
}

} // verus!
