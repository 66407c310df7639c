//! The identity and credential carrier handed to every resource operation.

use vstd::prelude::*;
use vstd::string::StringExecFns;

verus! {

/// A mailbox identity: local part, domain, password, and the bearer token
/// issued by the token endpoint (empty until an exchange succeeded).
pub struct User {
    pub id: String,
    pub domain: String,
    pub password: String,
    pub email_token: String,
}

/// The canonical mailbox address of a user: `id`, `@`, `domain`.
pub open spec fn address_chars(u: &User) -> Seq<char> {
    u.id@ + "@"@ + u.domain@
}

/// What lower-casing a text returns; the token endpoint receives the
/// lower-cased address. An empty text stays empty.
pub uninterp spec fn lower_of(s: Seq<char>) -> Seq<char>;

/// Relies on `str::to_lowercase`: the result depends on the characters
/// alone, named by [`lower_of`].
#[verifier::external_body]
pub fn lowercase(s: &str) -> (r: String)
    ensures
        r@ == lower_of(s@),
        s@.len() == 0 ==> r@.len() == 0,
{
    s.to_lowercase()
}

impl User {
    /// The canonical mailbox address, `id@domain`, case preserved.
    pub fn address(&self) -> (r: String)
        ensures
            r@ == address_chars(self),
    {
        let mut s = self.id.clone();
        s.append("@");
        s.append(self.domain.as_str());
        s
    }
}

} // verus!
