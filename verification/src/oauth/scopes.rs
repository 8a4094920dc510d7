//! OAuth scope strings: a client's registered scopes and the scopes a
//! request asks for are space- or comma-separated lists. `parse` turns
//! one into a set, `is_subset_of` checks a request against a registration.

use vstd::prelude::*;

use crate::common::strset::{lemma_push_to_set, StringSet};
use crate::common::text::{str_or_empty, lemma_blank_no_tokens, chars_of, is_blank, is_whitespace, lemma_trim_empty_iff_blank, push_char, split_state, tokens, trim_str};

verus! {

/// The scopes named in `raw`: its tokens, split at white space and commas.
pub open spec fn scope_set(raw: Seq<char>) -> Set<Seq<char>> {
    tokens(raw, true).to_set()
}

/// Whether `requested` asks only for scopes in `allowed`. A blank request
/// asks for nothing and always passes; otherwise a blank registration
/// allows nothing.
pub open spec fn scope_subset(requested: Seq<char>, allowed: Seq<char>) -> bool {
    if is_blank(requested) {
        true
    } else if is_blank(allowed) {
        false
    } else {
        scope_set(requested).subset_of(scope_set(allowed))
    }
}

/// Splits `s` into tokens and collects them, each once.
pub fn token_set(s: &str, comma: bool) -> (r: StringSet)
    ensures
        r@ == tokens(s@, comma).to_set(),
{
    let cs = chars_of(s);
    let mut set = StringSet::new();
    let mut cur = String::new();
    let mut i: usize = 0;
    while i < cs.len()
        invariant
            cs@ == s@,
            i <= cs@.len(),
            set@ == split_state(s@.take(i as int), comma).0.to_set(),
            cur@ == split_state(s@.take(i as int), comma).1,
        decreases cs@.len() - i,
    {
        let c = cs[i];
        proof {
            assert(s@.take(i + 1).drop_last() =~= s@.take(i as int));
            assert(s@.take(i + 1).last() == c);
        }
        let sep = is_whitespace(c) || (comma && c == ',');
        if sep {
            if cur.unicode_len() > 0 {
                let ghost d = split_state(s@.take(i as int), comma).0;
                set.insert(cur);
                proof {
                    lemma_push_to_set(d, cur@);
                }
            }
            cur = String::new();
        } else {
            push_char(&mut cur, c);
        }
        i = i + 1;
    }
    assert(s@.take(cs@.len() as int) =~= s@);
    if cur.unicode_len() > 0 {
        let ghost d = split_state(s@, comma).0;
        set.insert(cur);
        proof {
            lemma_push_to_set(d, cur@);
        }
    }
    set
}

/// The set of scopes in a space- or comma-separated list; none for an
/// absent or blank one.
pub fn parse(raw: Option<&str>) -> (r: StringSet)
    ensures
        r@ == scope_set(str_or_empty(raw)),
{
    match raw {
        None => {
            let r = StringSet::new();
            assert(tokens(Seq::<char>::empty(), true) =~= Seq::<Seq<char>>::empty());
            assert(r@ =~= scope_set(str_or_empty(raw)));
            r
        },
        Some(s) => token_set(s, true),
    }
}

/// Whether every element of `a` is in `b`.
pub fn set_included(a: &StringSet, b: &StringSet) -> (r: bool)
    ensures
        r == a@.subset_of(b@),
{
    let items = a.items();
    let mut i: usize = 0;
    while i < items.len()
        invariant
            crate::common::strset::strings_view(items@) == a.elems(),
            a.elems().to_set() == a@,
            i <= items@.len(),
            forall|k: int| 0 <= k < i ==> b@.contains(#[trigger] items@[k]@),
        decreases items@.len() - i,
    {
        if !b.contains(items[i].as_str()) {
            assert(a.elems()[i as int] == items@[i as int]@);
            assert(a.elems().contains(items@[i as int]@));
            return false;
        }
        i = i + 1;
    }
    assert forall|x: Seq<char>| a@.contains(x) implies b@.contains(x) by {
        let k = choose|k: int| 0 <= k < a.elems().len() && a.elems()[k] == x;
        assert(a.elems()[k] == items@[k]@);
    }
    true
}

/// Whether the scopes `requested` asks for are all in `allowed`.
pub fn is_subset_of(requested: Option<&str>, allowed: Option<&str>) -> (r: bool)
    ensures
        r == scope_subset(str_or_empty(requested), str_or_empty(allowed)),
{
    let req = match requested {
        Some(s) => trim_str(s),
        None => String::new(),
    };
    proof { lemma_trim_empty_iff_blank(str_or_empty(requested)); }
    if req.unicode_len() == 0 {
        return true;
    }
    let allow = match allowed {
        Some(s) => trim_str(s),
        None => String::new(),
    };
    proof { lemma_trim_empty_iff_blank(str_or_empty(allowed)); }
    if allow.unicode_len() == 0 {
        return false;
    }
    let req_set = match requested {
        Some(s) => token_set(s, true),
        None => StringSet::new(),
    };
    let allowed_set = match allowed {
        Some(s) => token_set(s, true),
        None => StringSet::new(),
    };
    set_included(&req_set, &allowed_set)
}

/// A request is always within its own registration.
pub proof fn law_subset_reflexive(s: Seq<char>)
    ensures
        scope_subset(s, s),
{
}

/// Scope containment is transitive: a request within `b`, where `b` is
/// within `c`, is within `c`.
pub proof fn law_subset_transitive(a: Seq<char>, b: Seq<char>, c: Seq<char>)
    requires
        scope_subset(a, b),
        scope_subset(b, c),
    ensures
        scope_subset(a, c),
{
}

/// A blank request is always a subset; a non-blank request is never a
/// subset of a blank registration.
pub proof fn law_blank_request_and_registration(requested: Seq<char>, allowed: Seq<char>)
    ensures
        is_blank(requested) ==> scope_subset(requested, allowed),
        !is_blank(requested) && is_blank(allowed) ==> !scope_subset(requested, allowed),
{
}

/// A blank list names no scope.
pub proof fn law_blank_list_is_empty(raw: Seq<char>)
    requires
        is_blank(raw),
    ensures
        scope_set(raw) == Set::<Seq<char>>::empty(),
{
    lemma_blank_no_tokens(raw, true);
    assert(scope_set(raw) =~= Set::<Seq<char>>::empty());
}

} // verus!
