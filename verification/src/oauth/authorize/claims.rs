//! The OIDC `claims` request parameter (`{"id_token": {...},
//! "userinfo": {...}}`): which claims beyond the defaults a client asks
//! for in the ID token and at `/userinfo`.

use vstd::prelude::*;

use crate::common::strset::{set_of, StringSet};
use crate::common::text::{is_blank, lemma_trim_empty_iff_blank, trim_str};

verus! {

/// The member names of the object found under `section` in the JSON text
/// `text`: `None` when the text is not JSON, no names when the top level
/// is not an object or the section is absent or not an object.
pub uninterp spec fn json_section_names(text: Seq<char>, section: Seq<char>) -> Option<Seq<Seq<char>>>;

/// `serde_json::from_str::<Value>` on `text`, then `Value::get(section)`,
/// `Value::as_object` and `Map::keys` on the result.
#[verifier::external_body]
fn json_member_names(text: &str, section: &str) -> (r: Option<Vec<String>>)
    ensures
        match r {
            Some(v) => json_section_names(text@, section@) == Some(
                crate::common::strset::strings_view(v@),
            ),
            None => json_section_names(text@, section@) is None,
        },
{
    match serde_json::from_str::<serde_json::Value>(text) {
        Ok(root) => Some(
            root.get(section).and_then(|v| v.as_object()).map(|o| o.keys().cloned().collect()).unwrap_or_default(),
        ),
        Err(_) => None,
    }
}

/// The names a `claims` parameter requests in `section`.
pub open spec fn requested_names(json: Option<Seq<char>>, section: Seq<char>) -> Set<Seq<char>> {
    match json {
        None => Set::empty(),
        Some(text) => if is_blank(text) {
            Set::empty()
        } else {
            match json_section_names(text, section) {
                Some(names) => names.to_set(),
                None => Set::empty(),
            }
        },
    }
}

pub struct ClaimsRequest {
    id_token_claims: StringSet,
    userinfo_claims: StringSet,
}

impl ClaimsRequest {
    pub closed spec fn id_token(&self) -> Set<Seq<char>> {
        self.id_token_claims@
    }

    pub closed spec fn userinfo(&self) -> Set<Seq<char>> {
        self.userinfo_claims@
    }

    pub fn empty() -> (r: Self)
        ensures
            r.id_token() == Set::<Seq<char>>::empty(),
            r.userinfo() == Set::<Seq<char>>::empty(),
    {
        ClaimsRequest { id_token_claims: StringSet::new(), userinfo_claims: StringSet::new() }
    }

    /// Parses a `claims` parameter; an absent, blank or non-JSON one
    /// requests nothing.
    pub fn parse(json: Option<&str>) -> (r: Self)
        ensures
            r.id_token() == requested_names(crate::common::text::opt_str(json), "id_token"@),
            r.userinfo() == requested_names(crate::common::text::opt_str(json), "userinfo"@),
    {
        let text = match json {
            None => return Self::empty(),
            Some(t) => t,
        };
        let trimmed = trim_str(text);
        proof { lemma_trim_empty_iff_blank(text@); }
        if trimmed.unicode_len() == 0 {
            return Self::empty();
        }
        let id_token_claims = match json_member_names(text, "id_token") {
            None => StringSet::new(),
            Some(v) => set_of(&v),
        };
        let userinfo_claims = match json_member_names(text, "userinfo") {
            None => StringSet::new(),
            Some(v) => set_of(&v),
        };
        ClaimsRequest { id_token_claims, userinfo_claims }
    }

    pub fn id_token_claims(&self) -> (r: &StringSet)
        ensures
            r@ == self.id_token(),
    {
        &self.id_token_claims
    }

    pub fn userinfo_claims(&self) -> (r: &StringSet)
        ensures
            r@ == self.userinfo(),
    {
        &self.userinfo_claims
    }

    pub fn is_empty(&self) -> (r: bool)
        ensures
            r == (self.id_token().len() == 0 && self.userinfo().len() == 0),
    {
        self.id_token_claims.is_empty() && self.userinfo_claims.is_empty()
    }
}

} // verus!
