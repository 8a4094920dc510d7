//! Records stored as flat lists of named text fields (a Redis hash).

use vstd::prelude::*;

use crate::common::text::{opt_string, str_eq};
use crate::common::url::pairs_view;

verus! {

/// The value of the first field named `k`, if any.
pub open spec fn field_lookup(m: Seq<(Seq<char>, Seq<char>)>, k: Seq<char>) -> Option<Seq<char>>
    decreases m.len(),
{
    if m.len() == 0 {
        None
    } else if m[0].0 == k {
        Some(m[0].1)
    } else {
        field_lookup(m.drop_first(), k)
    }
}

/// Looking up in a concatenation looks in the first part first.
pub proof fn lemma_lookup_concat(a: Seq<(Seq<char>, Seq<char>)>, b: Seq<(Seq<char>, Seq<char>)>, k: Seq<char>)
    ensures
        field_lookup(a + b, k) == (if field_lookup(a, k) is Some {
            field_lookup(a, k)
        } else {
            field_lookup(b, k)
        }),
    decreases a.len(),
{
    if a.len() == 0 {
        assert(a + b =~= b);
    } else {
        assert((a + b).drop_first() =~= a.drop_first() + b);
        lemma_lookup_concat(a.drop_first(), b, k);
    }
}

/// A copy of the value of the first field named `key`.
pub fn field_value(fields: &Vec<(String, String)>, key: &str) -> (r: Option<String>)
    ensures
        opt_string(r) == field_lookup(pairs_view(fields@), key@),
{
    let ghost m = pairs_view(fields@);
    assert(m.skip(0) =~= m);
    let mut i: usize = 0;
    while i < fields.len()
        invariant
            i <= fields@.len(),
            m == pairs_view(fields@),
            field_lookup(m, key@) == field_lookup(m.skip(i as int), key@),
        decreases fields@.len() - i,
    {
        assert(m.skip(i as int)[0] == m[i as int]);
        assert(m.skip(i as int).drop_first() =~= m.skip(i + 1));
        if str_eq(fields[i].0.as_str(), key) {
            return Some(fields[i].1.clone());
        }
        i = i + 1;
    }
    assert(m.skip(i as int).len() == 0);
    None
}

} // verus!
