//! Consent decisions: whether the grant on record covers a request, and
//! the grant recorded when the user allows one.

use vstd::prelude::*;

use super::model::UserConsent;
use crate::common::crypto::new_uuid;
use crate::common::order::{sorted_items, sorted_strict};
use crate::common::strset::{strings_view, StringSet};
use crate::common::text::{join_space, join_with_space, lemma_tokens_are_tokens, lemma_tokens_of_join, str_or_empty, tokens};
use crate::oauth::scopes::{parse, scope_set, set_included, token_set};

verus! {

/// Whether a grant of `granted` covers a request for `requested`: a
/// request naming no scope always is; otherwise there must be a grant
/// holding every requested scope.
pub open spec fn consent_covers(requested: Seq<char>, granted: Option<Seq<char>>) -> bool {
    ||| scope_set(requested).len() == 0
    ||| (granted matches Some(g) && scope_set(requested).subset_of(scope_set(g)))
}

/// The consent check for a request (`existing` is the grant on record
/// for the user and client, looked up only when the request names a
/// scope).
pub fn has_consent(requested_scope_raw: Option<&str>, existing: Option<&UserConsent>) -> (r: bool)
    ensures
        r == consent_covers(str_or_empty(requested_scope_raw), match existing {
            Some(c) => Some(c.scopes@),
            None => None,
        }),
{
    let requested = parse(requested_scope_raw);
    if requested.is_empty() {
        return true;
    }
    let existing = match existing {
        None => return false,
        Some(c) => c,
    };
    let granted = token_set(existing.scopes.as_str(), true);
    set_included(&requested, &granted)
}

/// The scope text stored for a grant: the scopes, each once, in
/// increasing order, separated by single spaces.
pub open spec fn scope_text_of(s: Set<Seq<char>>, text: Seq<char>) -> bool {
    exists|l: Seq<Seq<char>>| sorted_strict(l) && l.to_set() == s && text == join_space(l)
}

/// The scopes a grant holds after the user allows `requested`: those of
/// the grant on record, if any, and the requested ones.
pub open spec fn merged_scopes(requested: Seq<char>, existing: Option<Seq<char>>) -> Set<Seq<char>> {
    match existing {
        Some(e) => scope_set(e).union(scope_set(requested)),
        None => scope_set(requested),
    }
}

/// The scope text to record when the user allows `requested`.
pub fn granted_scope_text(requested_scope_raw: Option<&str>, existing: Option<&UserConsent>) -> (r: String)
    ensures
        scope_text_of(merged_scopes(str_or_empty(requested_scope_raw), match existing {
            Some(c) => Some(c.scopes@),
            None => None,
        }), r@),
{
    let requested = parse(requested_scope_raw);
    let mut merged = match existing {
        Some(c) => token_set(c.scopes.as_str(), true),
        None => StringSet::new(),
    };
    let items = requested.items();
    let ghost base = merged@;
    let mut i: usize = 0;
    while i < items.len()
        invariant
            strings_view(items@) == requested.elems(),
            requested.elems().to_set() == requested@,
            i <= items@.len(),
            merged@ == base.union(strings_view(items@).take(i as int).to_set()),
        decreases items@.len() - i,
    {
        let ghost before = strings_view(items@).take(i as int);
        merged.insert(items[i].clone());
        proof {
            assert(strings_view(items@).take(i + 1) =~= before.push(items@[i as int]@));
            crate::common::strset::lemma_push_to_set(before, items@[i as int]@);
            assert(merged@ =~= base.union(strings_view(items@).take(i + 1).to_set()));
        }
        i = i + 1;
    }
    proof {
        assert(strings_view(items@).take(items@.len() as int) =~= strings_view(items@));
        match existing {
            Some(c) => {},
            None => {
                assert(merged@ =~= merged_scopes(str_or_empty(requested_scope_raw), None));
            },
        }
    }
    let sorted = sorted_items(&merged);
    let text = join_with_space(&sorted);
    assert(sorted_strict(strings_view(sorted@)) && strings_view(sorted@).to_set() == merged@ && text@ == join_space(strings_view(sorted@)));
    text
}

/// A first grant.
pub fn new_consent(user_id: u128, client_id: u128, scopes: String, now: i64) -> (r: UserConsent)
    ensures
        r.user_id == user_id,
        r.client_id == client_id,
        r.scopes == scopes,
        r.granted_at == now,
        r.updated_at == now,
{
    UserConsent { id: new_uuid(), user_id, client_id, scopes, granted_at: now, updated_at: now }
}

/// The grant on record, widened to `scopes`.
pub fn widened_consent(existing: UserConsent, scopes: String, now: i64) -> (r: UserConsent)
    ensures
        r.id == existing.id,
        r.user_id == existing.user_id,
        r.client_id == existing.client_id,
        r.scopes == scopes,
        r.granted_at == existing.granted_at,
        r.updated_at == now,
{
    UserConsent { scopes, updated_at: now, ..existing }
}

/// The scope text recorded for a set of scope tokens names exactly those
/// scopes.
pub proof fn lemma_scope_text_round_trip(s: Set<Seq<char>>, text: Seq<char>)
    requires
        scope_text_of(s, text),
        forall|x: Seq<char>| s.contains(x) ==> crate::common::text::is_token(x, true),
    ensures
        scope_set(text) == s,
{
    let l = choose|l: Seq<Seq<char>>| sorted_strict(l) && l.to_set() == s && text == join_space(l);
    assert forall|i: int| 0 <= i < l.len() implies crate::common::text::is_token(#[trigger] l[i], true) by {
        assert(l.to_set().contains(l[i]));
    }
    lemma_tokens_of_join(l, true);
}

/// Scopes named in a scope list are tokens.
pub proof fn lemma_scope_set_tokens(raw: Seq<char>)
    ensures
        forall|x: Seq<char>| scope_set(raw).contains(x) ==> crate::common::text::is_token(x, true),
{
    lemma_tokens_are_tokens(raw, true);
    assert forall|x: Seq<char>| scope_set(raw).contains(x) implies crate::common::text::is_token(x, true) by {
        let k = choose|k: int| 0 <= k < tokens(raw, true).len() && tokens(raw, true)[k] == x;
    }
}

/// Once the user allows a request, the recorded grant covers that request
/// and still covers everything granted before: allowing never narrows a
/// grant, and it names exactly the old and the new scopes.
pub proof fn law_grant_then_covered(requested: Seq<char>, existing: Option<Seq<char>>, text: Seq<char>)
    requires
        scope_text_of(merged_scopes(requested, existing), text),
    ensures
        scope_set(text) == merged_scopes(requested, existing),
        consent_covers(requested, Some(text)),
        existing matches Some(e) ==> consent_covers(e, Some(text)),
{
    lemma_scope_set_tokens(requested);
    if let Some(e) = existing {
        lemma_scope_set_tokens(e);
    }
    lemma_scope_text_round_trip(merged_scopes(requested, existing), text);
}

} // verus!
