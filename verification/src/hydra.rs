//! The paginated-collection envelope: a page of members, the total count,
//! and the optional pagination and search descriptors.

use vstd::prelude::*;
use vstd::string::StringExecFns;

use crate::json::{get_of, lookup, Json};

verus! {

/// A page of results. `members` keeps the server's order; `total_items`
/// counts the items across all pages.
pub struct HydraCollection<T> {
    pub members: Vec<T>,
    pub total_items: i64,
    pub view: Option<PageView>,
    pub search: Option<Search>,
}

/// The one invariant of a well-formed page: it cannot hold more members
/// than the total across all pages.
pub open spec fn collection_wf<T>(c: &HydraCollection<T>) -> bool {
    c.members@.len() <= c.total_items
}

/// The pagination descriptor of a page: references to the first, last,
/// next and previous pages, all optional.
#[derive(Debug, PartialEq)]
pub struct PageView {
    pub id: Option<String>,
    pub type_field: Option<String>,
    pub first: Option<String>,
    pub last: Option<String>,
    pub next: Option<String>,
    pub previous: Option<String>,
}

/// The search descriptor of a page; the mapping is carried as an opaque
/// JSON value.
#[derive(Debug, PartialEq)]
pub struct Search {
    pub type_field: Option<String>,
    pub template: Option<String>,
    pub mapping: Option<Json>,
}

/// A required string field: present and a string, or the shape is wrong.
pub open spec fn req_str(o: Option<Json>) -> Option<String> {
    match o {
        Some(Json::Str(s)) => Some(s),
        _ => None,
    }
}

/// A required boolean field.
pub open spec fn req_bool(o: Option<Json>) -> Option<bool> {
    match o {
        Some(Json::Bool(b)) => Some(b),
        _ => None,
    }
}

/// A required integer field.
pub open spec fn req_num(o: Option<Json>) -> Option<i64> {
    match o {
        Some(Json::Num(n)) => Some(n),
        _ => None,
    }
}

/// An optional string field: absent or null reads as `None`, a string as
/// `Some`, anything else is the wrong shape (the outer `None`).
pub open spec fn opt_str_field(o: Option<Json>) -> Option<Option<String>> {
    match o {
        None => Some(None),
        Some(Json::Null) => Some(None),
        Some(Json::Str(s)) => Some(Some(s)),
        _ => None,
    }
}

/// Reads a required string field, as [`req_str`] says.
pub fn take_str(o: Option<Json>) -> (r: Option<String>)
    ensures
        r == req_str(o),
{
    match o {
        Some(Json::Str(s)) => Some(s),
        _ => None,
    }
}

/// Reads a required boolean field, as [`req_bool`] says.
pub fn take_bool(o: Option<Json>) -> (r: Option<bool>)
    ensures
        r == req_bool(o),
{
    match o {
        Some(Json::Bool(b)) => Some(b),
        _ => None,
    }
}

/// Reads a required integer field, as [`req_num`] says.
pub fn take_num(o: Option<Json>) -> (r: Option<i64>)
    ensures
        r == req_num(o),
{
    match o {
        Some(Json::Num(n)) => Some(n),
        _ => None,
    }
}

/// Reads an optional string field, as [`opt_str_field`] says.
pub fn take_opt_str(o: Option<Json>) -> (r: Option<Option<String>>)
    ensures
        r == opt_str_field(o),
{
    match o {
        None => Some(None),
        Some(Json::Null) => Some(None),
        Some(Json::Str(s)) => Some(Some(s)),
        _ => None,
    }
}

/// The pagination descriptor a JSON tree describes: any object is accepted,
/// each reference read as an optional string field.
pub open spec fn parse_view(j: Json) -> Option<PageView> {
    if !(j matches Json::Obj(_)) {
        None
    } else {
        match (
            opt_str_field(get_of(j, "@id"@)),
            opt_str_field(get_of(j, "@type"@)),
            opt_str_field(get_of(j, "hydra:first"@)),
            opt_str_field(get_of(j, "hydra:last"@)),
            opt_str_field(get_of(j, "hydra:next"@)),
            opt_str_field(get_of(j, "hydra:previous"@)),
        ) {
            (Some(id), Some(tf), Some(fi), Some(la), Some(ne), Some(pr)) => Some(
                PageView { id, type_field: tf, first: fi, last: la, next: ne, previous: pr },
            ),
            _ => None,
        }
    }
}

/// A `hydra:view` field: absent or null reads as `None`, an object as a
/// parsed descriptor, anything else is the wrong shape.
pub open spec fn opt_view_field(o: Option<Json>) -> Option<Option<PageView>> {
    match o {
        None => Some(None),
        Some(Json::Null) => Some(None),
        Some(j) => match parse_view(j) {
            Some(v) => Some(Some(v)),
            None => None,
        },
    }
}

/// Reads a pagination descriptor out of a JSON tree, as [`parse_view`] says.
pub fn view_from_json(j: Json) -> (r: Option<PageView>)
    ensures
        r == parse_view(j),
{
    let ghost j0 = j;
    let mut entries = match j {
        Json::Obj(es) => es,
        _ => { return None; },
    };
    let ghost orig = entries@;
    let k_id = String::from_str("@id");
    let k_type = String::from_str("@type");
    let k_first = String::from_str("hydra:first");
    let k_last = String::from_str("hydra:last");
    let k_next = String::from_str("hydra:next");
    let k_prev = String::from_str("hydra:previous");
    let mut s_id: Option<Json> = None;
    let mut s_type: Option<Json> = None;
    let mut s_first: Option<Json> = None;
    let mut s_last: Option<Json> = None;
    let mut s_next: Option<Json> = None;
    let mut s_prev: Option<Json> = None;
    let ghost mut rem: int = orig.len() as int;
    while entries.len() > 0
        invariant
            k_id@ == "@id"@,
            k_type@ == "@type"@,
            k_first@ == "hydra:first"@,
            k_last@ == "hydra:last"@,
            k_next@ == "hydra:next"@,
            k_prev@ == "hydra:previous"@,
            0 <= rem <= orig.len(),
            entries@ == orig.take(rem),
            s_id == lookup(orig.skip(rem), "@id"@),
            s_type == lookup(orig.skip(rem), "@type"@),
            s_first == lookup(orig.skip(rem), "hydra:first"@),
            s_last == lookup(orig.skip(rem), "hydra:last"@),
            s_next == lookup(orig.skip(rem), "hydra:next"@),
            s_prev == lookup(orig.skip(rem), "hydra:previous"@),
        decreases entries.len(),
    {
        let (k, v) = entries.pop().unwrap();
        proof {
            reveal_strlit("@id");
            reveal_strlit("@type");
            reveal_strlit("hydra:first");
            reveal_strlit("hydra:last");
            reveal_strlit("hydra:next");
            reveal_strlit("hydra:previous");
            assert("@id"@.len() == 3);
            assert("@type"@.len() == 5);
            assert("hydra:first"@.len() == 11);
            assert("hydra:last"@.len() == 10);
            assert("hydra:next"@.len() == 10);
            assert("hydra:previous"@.len() == 14);
            assert("hydra:last"@[6] == 'l');
            assert("hydra:next"@[6] == 'n');
            assert(k == orig[rem - 1].0);
            assert(v == orig[rem - 1].1);
            assert(orig.take(rem).drop_last() =~= orig.take(rem - 1));
            assert(orig.skip(rem - 1)[0] == orig[rem - 1]);
            assert(orig.skip(rem - 1).skip(1) =~= orig.skip(rem));
        }
        if k == k_id {
            s_id = Some(v);
        } else if k == k_type {
            s_type = Some(v);
        } else if k == k_first {
            s_first = Some(v);
        } else if k == k_last {
            s_last = Some(v);
        } else if k == k_next {
            s_next = Some(v);
        } else if k == k_prev {
            s_prev = Some(v);
        }
        proof {
            rem = rem - 1;
        }
    }
    proof {
        assert(orig.take(rem).len() == 0);
        assert(rem == 0);
        assert(orig.skip(0) =~= orig);
    }
    let f_id = match take_opt_str(s_id) {
        Some(x) => x,
        None => { return None; },
    };
    let f_type = match take_opt_str(s_type) {
        Some(x) => x,
        None => { return None; },
    };
    let f_first = match take_opt_str(s_first) {
        Some(x) => x,
        None => { return None; },
    };
    let f_last = match take_opt_str(s_last) {
        Some(x) => x,
        None => { return None; },
    };
    let f_next = match take_opt_str(s_next) {
        Some(x) => x,
        None => { return None; },
    };
    let f_prev = match take_opt_str(s_prev) {
        Some(x) => x,
        None => { return None; },
    };
    Some(
        PageView {
            id: f_id,
            type_field: f_type,
            first: f_first,
            last: f_last,
            next: f_next,
            previous: f_prev,
        },
    )
}

/// The search descriptor a JSON tree describes: any object is accepted; the
/// mapping is kept opaque, null reading as absent.
pub open spec fn parse_search(j: Json) -> Option<Search> {
    if !(j matches Json::Obj(_)) {
        None
    } else {
        match (
            opt_str_field(get_of(j, "@type"@)),
            opt_str_field(get_of(j, "hydra:template"@)),
        ) {
            (Some(tf), Some(te)) => Some(
                Search {
                    type_field: tf,
                    template: te,
                    mapping: match get_of(j, "hydra:mapping"@) {
                        Some(Json::Null) => None,
                        other => other,
                    },
                },
            ),
            _ => None,
        }
    }
}

/// A `hydra:search` field, read like [`opt_view_field`].
pub open spec fn opt_search_field(o: Option<Json>) -> Option<Option<Search>> {
    match o {
        None => Some(None),
        Some(Json::Null) => Some(None),
        Some(j) => match parse_search(j) {
            Some(s) => Some(Some(s)),
            None => None,
        },
    }
}

/// Reads a search descriptor out of a JSON tree, as [`parse_search`] says.
pub fn search_from_json(j: Json) -> (r: Option<Search>)
    ensures
        r == parse_search(j),
{
    let ghost j0 = j;
    let mut entries = match j {
        Json::Obj(es) => es,
        _ => { return None; },
    };
    let ghost orig = entries@;
    let k_type = String::from_str("@type");
    let k_template = String::from_str("hydra:template");
    let k_mapping = String::from_str("hydra:mapping");
    let mut s_type: Option<Json> = None;
    let mut s_template: Option<Json> = None;
    let mut s_mapping: Option<Json> = None;
    let ghost mut rem: int = orig.len() as int;
    while entries.len() > 0
        invariant
            k_type@ == "@type"@,
            k_template@ == "hydra:template"@,
            k_mapping@ == "hydra:mapping"@,
            0 <= rem <= orig.len(),
            entries@ == orig.take(rem),
            s_type == lookup(orig.skip(rem), "@type"@),
            s_template == lookup(orig.skip(rem), "hydra:template"@),
            s_mapping == lookup(orig.skip(rem), "hydra:mapping"@),
        decreases entries.len(),
    {
        let (k, v) = entries.pop().unwrap();
        proof {
            reveal_strlit("@type");
            reveal_strlit("hydra:template");
            reveal_strlit("hydra:mapping");
            assert("@type"@.len() == 5);
            assert("hydra:template"@.len() == 14);
            assert("hydra:mapping"@.len() == 13);
            assert(k == orig[rem - 1].0);
            assert(v == orig[rem - 1].1);
            assert(orig.take(rem).drop_last() =~= orig.take(rem - 1));
            assert(orig.skip(rem - 1)[0] == orig[rem - 1]);
            assert(orig.skip(rem - 1).skip(1) =~= orig.skip(rem));
        }
        if k == k_type {
            s_type = Some(v);
        } else if k == k_template {
            s_template = Some(v);
        } else if k == k_mapping {
            s_mapping = Some(v);
        }
        proof {
            rem = rem - 1;
        }
    }
    proof {
        assert(orig.take(rem).len() == 0);
        assert(rem == 0);
        assert(orig.skip(0) =~= orig);
    }
    let f_type = match take_opt_str(s_type) {
        Some(x) => x,
        None => { return None; },
    };
    let f_template = match take_opt_str(s_template) {
        Some(x) => x,
        None => { return None; },
    };
    let f_mapping = match s_mapping {
        Some(Json::Null) => None,
        other => other,
    };
    Some(Search { type_field: f_type, template: f_template, mapping: f_mapping })
}

/// Wraps an optional string back into its JSON field value.
fn opt_str_to_json(o: Option<String>) -> (r: Json)
    ensures
        opt_str_field(Some(r)) == Some(o),
{
    match o {
        Some(s) => Json::Str(s),
        None => Json::Null,
    }
}

/// Writes a pagination descriptor back as a JSON tree. Reading the result
/// restores the descriptor exactly: the round trip loses nothing.
pub fn view_to_json(v: PageView) -> (r: Json)
    ensures
        parse_view(r) == Some(v),
{
    let ghost v0 = v;
    let mut es: Vec<(String, Json)> = Vec::new();
    es.push((String::from_str("@id"), opt_str_to_json(v.id)));
    es.push((String::from_str("@type"), opt_str_to_json(v.type_field)));
    es.push((String::from_str("hydra:first"), opt_str_to_json(v.first)));
    es.push((String::from_str("hydra:last"), opt_str_to_json(v.last)));
    es.push((String::from_str("hydra:next"), opt_str_to_json(v.next)));
    es.push((String::from_str("hydra:previous"), opt_str_to_json(v.previous)));
    let r = Json::Obj(es);
    proof {
        reveal_with_fuel(lookup, 8);
        reveal_strlit("@id");
        reveal_strlit("@type");
        reveal_strlit("hydra:first");
        reveal_strlit("hydra:last");
        reveal_strlit("hydra:next");
        reveal_strlit("hydra:previous");
        assert("@id"@.len() == 3);
        assert("@type"@.len() == 5);
        assert("hydra:first"@.len() == 11);
        assert("hydra:last"@.len() == 10);
        assert("hydra:next"@.len() == 10);
        assert("hydra:previous"@.len() == 14);
        assert("hydra:last"@[6] == 'l');
        assert("hydra:next"@[6] == 'n');
        assert(opt_str_field(get_of(r, "@id"@)) == Some(v0.id));
        assert(opt_str_field(get_of(r, "@type"@)) == Some(v0.type_field));
        assert(opt_str_field(get_of(r, "hydra:first"@)) == Some(v0.first));
        assert(opt_str_field(get_of(r, "hydra:last"@)) == Some(v0.last));
        assert(opt_str_field(get_of(r, "hydra:next"@)) == Some(v0.next));
        assert(opt_str_field(get_of(r, "hydra:previous"@)) == Some(v0.previous));
    }
    r
}

/// A search descriptor that can be written back: an opaque mapping equal to
/// the null node could not be told apart from an absent one.
pub open spec fn search_encodable(s: &Search) -> bool {
    s.mapping != Some(Json::Null)
}

/// Writes a search descriptor back as a JSON tree. Reading the result
/// restores the descriptor exactly.
pub fn search_to_json(s: Search) -> (r: Json)
    requires
        search_encodable(&s),
    ensures
        parse_search(r) == Some(s),
{
    let ghost s0 = s;
    let mut es: Vec<(String, Json)> = Vec::new();
    es.push((String::from_str("@type"), opt_str_to_json(s.type_field)));
    es.push((String::from_str("hydra:template"), opt_str_to_json(s.template)));
    es.push(
        (
            String::from_str("hydra:mapping"),
            match s.mapping {
                Some(x) => x,
                None => Json::Null,
            },
        ),
    );
    let r = Json::Obj(es);
    proof {
        reveal_with_fuel(lookup, 5);
        reveal_strlit("@type");
        reveal_strlit("hydra:template");
        reveal_strlit("hydra:mapping");
        assert("@type"@.len() == 5);
        assert("hydra:template"@.len() == 14);
        assert("hydra:mapping"@.len() == 13);
        assert(opt_str_field(get_of(r, "@type"@)) == Some(s0.type_field));
        assert(opt_str_field(get_of(r, "hydra:template"@)) == Some(s0.template));
    }
    r
}

/// The member list of a collection envelope: the `hydra:member` array.
pub open spec fn members_field(j: Json) -> Option<Seq<Json>> {
    match get_of(j, "hydra:member"@) {
        Some(Json::Arr(v)) => Some(v@),
        _ => None,
    }
}

/// The total count of a collection envelope: the `hydra:totalItems` number.
pub open spec fn total_field(j: Json) -> Option<i64> {
    req_num(get_of(j, "hydra:totalItems"@))
}

/// The pagination descriptor of a collection envelope.
pub open spec fn view_field(j: Json) -> Option<Option<PageView>> {
    opt_view_field(get_of(j, "hydra:view"@))
}

/// The search descriptor of a collection envelope.
pub open spec fn search_field(j: Json) -> Option<Option<Search>> {
    opt_search_field(get_of(j, "hydra:search"@))
}

/// Whether a JSON tree is a collection envelope: a member array, a total
/// count, and well-shaped optional descriptors.
pub open spec fn envelope_ok(j: Json) -> bool {
    &&& members_field(j) is Some
    &&& total_field(j) is Some
    &&& view_field(j) is Some
    &&& search_field(j) is Some
}

/// Splits a collection envelope into its four parts, exactly as the four
/// field readers say; fails if and only if the envelope is mis-shaped.
pub fn split_envelope(j: Json) -> (r: Option<(Vec<Json>, i64, Option<PageView>, Option<Search>)>)
    ensures
        match r {
            Some(t) => envelope_ok(j) && Some(t.0@) == members_field(j) && Some(t.1)
                == total_field(j) && Some(t.2) == view_field(j) && Some(t.3) == search_field(j),
            None => !envelope_ok(j),
        },
{
    let ghost j0 = j;
    let mut entries = match j {
        Json::Obj(es) => es,
        _ => { return None; },
    };
    let ghost orig = entries@;
    let k_member = String::from_str("hydra:member");
    let k_total = String::from_str("hydra:totalItems");
    let k_view = String::from_str("hydra:view");
    let k_search = String::from_str("hydra:search");
    let mut s_member: Option<Json> = None;
    let mut s_total: Option<Json> = None;
    let mut s_view: Option<Json> = None;
    let mut s_search: Option<Json> = None;
    let ghost mut rem: int = orig.len() as int;
    while entries.len() > 0
        invariant
            k_member@ == "hydra:member"@,
            k_total@ == "hydra:totalItems"@,
            k_view@ == "hydra:view"@,
            k_search@ == "hydra:search"@,
            0 <= rem <= orig.len(),
            entries@ == orig.take(rem),
            s_member == lookup(orig.skip(rem), "hydra:member"@),
            s_total == lookup(orig.skip(rem), "hydra:totalItems"@),
            s_view == lookup(orig.skip(rem), "hydra:view"@),
            s_search == lookup(orig.skip(rem), "hydra:search"@),
        decreases entries.len(),
    {
        let (k, v) = entries.pop().unwrap();
        proof {
            reveal_strlit("hydra:member");
            reveal_strlit("hydra:totalItems");
            reveal_strlit("hydra:view");
            reveal_strlit("hydra:search");
            assert("hydra:member"@.len() == 12);
            assert("hydra:totalItems"@.len() == 16);
            assert("hydra:view"@.len() == 10);
            assert("hydra:search"@.len() == 12);
            assert("hydra:member"@[6] == 'm');
            assert("hydra:search"@[6] == 's');
            assert(k == orig[rem - 1].0);
            assert(v == orig[rem - 1].1);
            assert(orig.take(rem).drop_last() =~= orig.take(rem - 1));
            assert(orig.skip(rem - 1)[0] == orig[rem - 1]);
            assert(orig.skip(rem - 1).skip(1) =~= orig.skip(rem));
        }
        if k == k_member {
            s_member = Some(v);
        } else if k == k_total {
            s_total = Some(v);
        } else if k == k_view {
            s_view = Some(v);
        } else if k == k_search {
            s_search = Some(v);
        }
        proof {
            rem = rem - 1;
        }
    }
    proof {
        assert(orig.take(rem).len() == 0);
        assert(rem == 0);
        assert(orig.skip(0) =~= orig);
    }
    let items = match s_member {
        Some(Json::Arr(v)) => v,
        _ => { return None; },
    };
    let total = match take_num(s_total) {
        Some(n) => n,
        None => { return None; },
    };
    let view = match s_view {
        None => None,
        Some(Json::Null) => None,
        Some(jv) => match view_from_json(jv) {
            Some(v) => Some(v),
            None => { return None; },
        },
    };
    let search = match s_search {
        None => None,
        Some(Json::Null) => None,
        Some(js) => match search_from_json(js) {
            Some(s) => Some(s),
            None => { return None; },
        },
    };
    Some((items, total, view, search))
}

} // verus!
