//! The domain resource: the mailbox suffixes an account can register under.

use vstd::prelude::*;
use vstd::string::StringExecFns;

use crate::error::{is_decode_err, Error};
use crate::http::success_status;
use crate::hydra::{
    collection_wf, envelope_ok, members_field, opt_str_field, req_bool, req_str, search_field,
    split_envelope, take_bool, take_opt_str, take_str, total_field, view_field, HydraCollection,
};
use crate::json::{get_of, json_of, lookup, Json};

verus! {

/// One registrable domain, as the domain endpoint lists it.
#[derive(Debug, PartialEq)]
pub struct Domain {
    pub id: String,
    pub type_field: String,
    pub context: Option<String>,
    pub id2: String,
    pub domain: String,
    pub is_active: bool,
    pub created_at: String,
    pub updated_at: String,
}

/// The domain a JSON tree describes: an object with the hypermedia ids, the
/// domain name, the active flag and both timestamps required; the context is
/// optional.
pub open spec fn parse_domain(j: Json) -> Option<Domain> {
    match (
        req_str(get_of(j, "@id"@)),
        req_str(get_of(j, "@type"@)),
        opt_str_field(get_of(j, "@context"@)),
        req_str(get_of(j, "id"@)),
        req_str(get_of(j, "domain"@)),
        req_bool(get_of(j, "isActive"@)),
        req_str(get_of(j, "createdAt"@)),
        req_str(get_of(j, "updatedAt"@)),
    ) {
        (Some(id), Some(tf), Some(cx), Some(id2), Some(dm), Some(ia), Some(ca), Some(ua)) => Some(
            Domain {
                id,
                type_field: tf,
                context: cx,
                id2,
                domain: dm,
                is_active: ia,
                created_at: ca,
                updated_at: ua,
            },
        ),
        _ => None,
    }
}

/// Reads a domain out of a JSON tree, exactly as [`parse_domain`] says.
pub fn domain_from_json(j: Json) -> (r: Option<Domain>)
    ensures
        r == parse_domain(j),
{
    let ghost j0 = j;
    let mut entries = match j {
        Json::Obj(es) => es,
        _ => { return None; },
    };
    let ghost orig = entries@;
    let k_id = String::from_str("@id");
    let k_type = String::from_str("@type");
    let k_ctx = String::from_str("@context");
    let k_id2 = String::from_str("id");
    let k_domain = String::from_str("domain");
    let k_active = String::from_str("isActive");
    let k_created = String::from_str("createdAt");
    let k_updated = String::from_str("updatedAt");
    let mut s_id: Option<Json> = None;
    let mut s_type: Option<Json> = None;
    let mut s_ctx: Option<Json> = None;
    let mut s_id2: Option<Json> = None;
    let mut s_domain: Option<Json> = None;
    let mut s_active: Option<Json> = None;
    let mut s_created: Option<Json> = None;
    let mut s_updated: Option<Json> = None;
    let ghost mut rem: int = orig.len() as int;
    while entries.len() > 0
        invariant
            k_id@ == "@id"@,
            k_type@ == "@type"@,
            k_ctx@ == "@context"@,
            k_id2@ == "id"@,
            k_domain@ == "domain"@,
            k_active@ == "isActive"@,
            k_created@ == "createdAt"@,
            k_updated@ == "updatedAt"@,
            0 <= rem <= orig.len(),
            entries@ == orig.take(rem),
            s_id == lookup(orig.skip(rem), "@id"@),
            s_type == lookup(orig.skip(rem), "@type"@),
            s_ctx == lookup(orig.skip(rem), "@context"@),
            s_id2 == lookup(orig.skip(rem), "id"@),
            s_domain == lookup(orig.skip(rem), "domain"@),
            s_active == lookup(orig.skip(rem), "isActive"@),
            s_created == lookup(orig.skip(rem), "createdAt"@),
            s_updated == lookup(orig.skip(rem), "updatedAt"@),
        decreases entries.len(),
    {
        let (k, v) = entries.pop().unwrap();
        proof {
            reveal_strlit("@id");
            reveal_strlit("@type");
            reveal_strlit("@context");
            reveal_strlit("id");
            reveal_strlit("domain");
            reveal_strlit("isActive");
            reveal_strlit("createdAt");
            reveal_strlit("updatedAt");
            assert("@id"@.len() == 3);
            assert("@type"@.len() == 5);
            assert("@context"@.len() == 8);
            assert("id"@.len() == 2);
            assert("domain"@.len() == 6);
            assert("isActive"@.len() == 8);
            assert("createdAt"@.len() == 9);
            assert("updatedAt"@.len() == 9);
            assert("@context"@[0] == '@');
            assert("isActive"@[0] == 'i');
            assert("createdAt"@[0] == 'c');
            assert("updatedAt"@[0] == 'u');
            assert(k == orig[rem - 1].0);
            assert(v == orig[rem - 1].1);
            assert(orig.take(rem).drop_last() =~= orig.take(rem - 1));
            assert(orig.skip(rem - 1)[0] == orig[rem - 1]);
            assert(orig.skip(rem - 1).skip(1) =~= orig.skip(rem));
        }
        if k == k_id {
            s_id = Some(v);
        } else if k == k_type {
            s_type = Some(v);
        } else if k == k_ctx {
            s_ctx = Some(v);
        } else if k == k_id2 {
            s_id2 = Some(v);
        } else if k == k_domain {
            s_domain = Some(v);
        } else if k == k_active {
            s_active = Some(v);
        } else if k == k_created {
            s_created = Some(v);
        } else if k == k_updated {
            s_updated = Some(v);
        }
        proof {
            rem = rem - 1;
        }
    }
    proof {
        assert(orig.take(rem).len() == 0);
        assert(rem == 0);
        assert(orig.skip(0) =~= orig);
    }
    let f_id = match take_str(s_id) {
        Some(x) => x,
        None => { return None; },
    };
    let f_type = match take_str(s_type) {
        Some(x) => x,
        None => { return None; },
    };
    let f_ctx = match take_opt_str(s_ctx) {
        Some(x) => x,
        None => { return None; },
    };
    let f_id2 = match take_str(s_id2) {
        Some(x) => x,
        None => { return None; },
    };
    let f_domain = match take_str(s_domain) {
        Some(x) => x,
        None => { return None; },
    };
    let f_active = match take_bool(s_active) {
        Some(x) => x,
        None => { return None; },
    };
    let f_created = match take_str(s_created) {
        Some(x) => x,
        None => { return None; },
    };
    let f_updated = match take_str(s_updated) {
        Some(x) => x,
        None => { return None; },
    };
    Some(
        Domain {
            id: f_id,
            type_field: f_type,
            context: f_ctx,
            id2: f_id2,
            domain: f_domain,
            is_active: f_active,
            created_at: f_created,
            updated_at: f_updated,
        },
    )
}

/// Whether a JSON tree is a well-shaped page of domains: a collection
/// envelope whose every member is a domain, holding no more members than the
/// total count.
pub open spec fn domains_ok(jv: Json) -> bool {
    &&& envelope_ok(jv)
    &&& forall|i: int|
        0 <= i < members_field(jv).unwrap().len() ==> parse_domain(
            #[trigger] members_field(jv).unwrap()[i],
        ) is Some
    &&& members_field(jv).unwrap().len() <= total_field(jv).unwrap()
}

/// How a decoded page of domains relates to the JSON tree it came from:
/// every field is exactly what the envelope's readers say, member by member
/// and in order.
pub open spec fn domains_match(c: &HydraCollection<Domain>, jv: Json) -> bool {
    &&& c.members@.len() == members_field(jv).unwrap().len()
    &&& forall|i: int|
        0 <= i < c.members@.len() ==> Some(#[trigger] c.members@[i]) == parse_domain(
            members_field(jv).unwrap()[i],
        )
    &&& Some(c.total_items) == total_field(jv)
    &&& Some(c.view) == view_field(jv)
    &&& Some(c.search) == search_field(jv)
}

/// Interprets the response of the domain listing: a non-success status
/// becomes a `Status` error carrying the raw body; a body that is not JSON
/// or not a well-shaped page of domains becomes a `Decode` error carrying
/// the raw body; otherwise the page is returned, well-formed, exactly as
/// [`domains_match`] says.
pub fn decode_domains(status: u16, body: String) -> (r: Result<HydraCollection<Domain>, Error>)
    ensures
        !success_status(status) ==> r == Err::<HydraCollection<Domain>, Error>(
            Error::Status(status, body),
        ),
        success_status(status) ==> match json_of(body@) {
            None => is_decode_err(r, body),
            Some(jv) => if domains_ok(jv) {
                r matches Ok(c) && domains_match(&c, jv) && collection_wf(&c)
            } else {
                is_decode_err(r, body)
            },
        },
{
    if !(200 <= status && status < 300) {
        return Err(Error::Status(status, body));
    }
    let parsed = match crate::json::parse_json(body.as_str()) {
        Some(j) => j,
        None => { return Err(Error::Decode(String::from_str("the body is not valid JSON"), body)); },
    };
    let ghost jv = parsed;
    let (mut items, total, view, search) = match split_envelope(parsed) {
        Some(t) => t,
        None => {
            return Err(
                Error::Decode(String::from_str("the body is not a collection envelope"), body),
            );
        },
    };
    let ghost orig_items = items@;
    let mut members: Vec<Domain> = Vec::new();
    while items.len() > 0
        invariant
            success_status(status),
            Some(jv) == json_of(body@),
            Some(orig_items) == members_field(jv),
            Some(total) == total_field(jv),
            Some(view) == view_field(jv),
            Some(search) == search_field(jv),
            members@.len() + items@.len() == orig_items.len(),
            items@ == orig_items.skip(members@.len() as int),
            forall|i: int|
                0 <= i < members@.len() ==> Some(#[trigger] members@[i]) == parse_domain(
                    orig_items[i],
                ),
        decreases items.len(),
    {
        let ghost n = members@.len() as int;
        let it = items.remove(0);
        proof {
            assert(orig_items.skip(n)[0] == orig_items[n]);
            assert(orig_items.skip(n).remove(0) =~= orig_items.skip(n + 1));
        }
        match domain_from_json(it) {
            Some(d) => {
                members.push(d);
                proof {
                    assert(members@.last() == d);
                    assert(Some(members@[n]) == parse_domain(orig_items[n]));
                }
            },
            None => {
                proof {
                    assert(members_field(jv).unwrap()[n] == orig_items[n]);
                    assert(parse_domain(members_field(jv).unwrap()[n]) is None);
                    assert(!domains_ok(jv));
                }
                return Err(
                    Error::Decode(
                        String::from_str("a member of the page is not a domain"),
                        body,
                    ),
                );
            },
        }
    }
    proof {
        assert(items@.len() == 0);
        assert(members@.len() == orig_items.len());
    }
    if !(total >= 0 && (members.len() as u64) <= (total as u64)) {
        proof {
            assert(members_field(jv).unwrap().len() > total_field(jv).unwrap());
            assert(!domains_ok(jv));
        }
        return Err(
            Error::Decode(
                String::from_str("the page holds more members than the total count"),
                body,
            ),
        );
    }
    proof {
        assert forall|i: int|
            0 <= i < members_field(jv).unwrap().len() implies parse_domain(
            #[trigger] members_field(jv).unwrap()[i],
        ) is Some by {
            assert(Some(members@[i]) == parse_domain(orig_items[i]));
        }
        assert(domains_ok(jv));
    }
    Ok(HydraCollection { members, total_items: total, view, search })
}

impl HydraCollection<Domain> {
    /// The domain names of the page, order and length preserved.
    pub fn as_list(&self) -> (r: Vec<String>)
        ensures
            r@.len() == self.members@.len(),
            forall|i: int| 0 <= i < r@.len() ==> #[trigger] r@[i] == self.members@[i].domain,
    {
        let mut out: Vec<String> = Vec::new();
        let mut i: usize = 0;
        while i < self.members.len()
            invariant
                i <= self.members@.len(),
                out@.len() == i,
                forall|k: int| 0 <= k < i ==> #[trigger] out@[k] == self.members@[k].domain,
            decreases self.members@.len() - i,
        {
            out.push(self.members[i].domain.clone());
            i = i + 1;
        }
        out
    }
}

} // verus!
