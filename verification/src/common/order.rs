//! Lexicographic order on strings and sorting string sets. Comparing
//! characters by code point orders strings exactly as comparing their
//! UTF-8 bytes does, which is how `String`'s `Ord` sorts.

use vstd::prelude::*;

use crate::common::strset::{strings_view, StringSet};
use crate::common::text::chars_of;

verus! {

/// `a` sorts strictly before `b`.
pub open spec fn lex_lt(a: Seq<char>, b: Seq<char>) -> bool
    decreases a.len(),
{
    if a.len() == 0 {
        b.len() > 0
    } else if b.len() == 0 {
        false
    } else if a[0] != b[0] {
        a[0] < b[0]
    } else {
        lex_lt(a.drop_first(), b.drop_first())
    }
}

/// Strictly increasing, hence also free of duplicates.
pub open spec fn sorted_strict(s: Seq<Seq<char>>) -> bool {
    forall|i: int, j: int| 0 <= i < j < s.len() ==> lex_lt(#[trigger] s[i], #[trigger] s[j])
}

pub proof fn lemma_lex_irreflexive(a: Seq<char>)
    ensures
        !lex_lt(a, a),
    decreases a.len(),
{
    if a.len() > 0 {
        lemma_lex_irreflexive(a.drop_first());
    }
}

pub proof fn lemma_lex_transitive(a: Seq<char>, b: Seq<char>, c: Seq<char>)
    requires
        lex_lt(a, b),
        lex_lt(b, c),
    ensures
        lex_lt(a, c),
    decreases a.len(),
{
    if a.len() > 0 && b.len() > 0 && c.len() > 0 && a[0] == b[0] && b[0] == c[0] {
        lemma_lex_transitive(a.drop_first(), b.drop_first(), c.drop_first());
    }
}

pub proof fn lemma_lex_total(a: Seq<char>, b: Seq<char>)
    requires
        a != b,
    ensures
        lex_lt(a, b) || lex_lt(b, a),
    decreases a.len(),
{
    if a.len() > 0 && b.len() > 0 && a[0] == b[0] {
        if a.drop_first() == b.drop_first() {
            assert(a =~= seq![a[0]] + a.drop_first());
            assert(b =~= seq![b[0]] + b.drop_first());
        }
        lemma_lex_total(a.drop_first(), b.drop_first());
    } else if a.len() == 0 && b.len() == 0 {
        assert(a =~= b);
    }
}

pub fn str_lt(a: &str, b: &str) -> (r: bool)
    ensures
        r == lex_lt(a@, b@),
{
    let x = chars_of(a);
    let y = chars_of(b);
    let mut i: usize = 0;
    assert(a@.subrange(0, a@.len() as int) =~= a@);
    assert(b@.subrange(0, b@.len() as int) =~= b@);
    while i < x.len() && i < y.len() && x[i] == y[i]
        invariant
            x@ == a@,
            y@ == b@,
            i <= x@.len(),
            i <= y@.len(),
            lex_lt(a@, b@) == lex_lt(a@.subrange(i as int, a@.len() as int), b@.subrange(i as int, b@.len() as int)),
        decreases x@.len() - i,
    {
        proof {
            let sa = a@.subrange(i as int, a@.len() as int);
            let sb = b@.subrange(i as int, b@.len() as int);
            assert(sa.drop_first() =~= a@.subrange(i + 1, a@.len() as int));
            assert(sb.drop_first() =~= b@.subrange(i + 1, b@.len() as int));
        }
        i = i + 1;
    }
    let sa = Ghost(a@.subrange(i as int, a@.len() as int));
    let sb = Ghost(b@.subrange(i as int, b@.len() as int));
    if i == x.len() {
        i < y.len()
    } else if i == y.len() {
        false
    } else {
        assert(sa@[0] == x@[i as int] && sb@[0] == y@[i as int]);
        x[i] < y[i]
    }
}

/// The elements of `set` in increasing order.
pub fn sorted_items(set: &StringSet) -> (r: Vec<String>)
    ensures
        sorted_strict(strings_view(r@)),
        strings_view(r@).to_set() == set@,
        r@.len() == set@.len(),
{
    let items = set.items();
    let mut out: Vec<String> = Vec::new();
    let mut i: usize = 0;
    while i < items.len()
        invariant
            strings_view(items@) == set.elems(),
            set.elems().no_duplicates(),
            set.elems().to_set() == set@,
            set@.len() == set.elems().len(),
            i <= items@.len(),
            sorted_strict(strings_view(out@)),
            strings_view(out@).to_set() == strings_view(items@).take(i as int).to_set(),
            out@.len() == i,
        decreases items@.len() - i,
    {
        let x = &items[i];
        let ghost xv = x@;
        let ghost before = strings_view(out@);
        proof {
            assert(!strings_view(items@).take(i as int).contains(xv)) by {
                if strings_view(items@).take(i as int).contains(xv) {
                    let k = choose|k: int| 0 <= k < i && strings_view(items@).take(i as int)[k] == xv;
                    assert(strings_view(items@)[k] == strings_view(items@)[i as int]);
                }
            }
            assert(!before.contains(xv)) by {
                if before.contains(xv) {
                    assert(before.to_set().contains(xv));
                }
            }
        }
        let mut pos: usize = 0;
        let mut go = true;
        while go && pos < out.len()
            invariant
                strings_view(out@) == before,
                x@ == xv,
                pos <= out@.len(),
                forall|k: int| 0 <= k < pos ==> lex_lt(#[trigger] before[k], xv),
                !go ==> pos < out@.len() && !lex_lt(before[pos as int], xv),
            decreases out@.len() - pos, if go { 1int } else { 0int },
        {
            assert(before[pos as int] == out@[pos as int]@);
            let lt = str_lt(out[pos].as_str(), x.as_str());
            if lt {
                pos = pos + 1;
            } else {
                go = false;
            }
        }
        proof {
            if pos < out@.len() {
                assert(before[pos as int] != xv) by {
                    assert(before.contains(before[pos as int]));
                }
                lemma_lex_total(before[pos as int], xv);
            }
        }
        out.insert(pos, x.clone());
        proof {
            let after = strings_view(out@);
            assert(after =~= before.insert(pos as int, xv));
            assert forall|a: int, b: int| 0 <= a < b < after.len() implies lex_lt(#[trigger] after[a], #[trigger] after[b]) by {
                if b < pos {
                } else if b == pos {
                } else if a < pos {
                    assert(after[b] == before[b - 1]);
                    if a < pos {
                        lemma_lex_transitive(before[a], xv, before[pos as int]);
                        if b - 1 > pos {
                            lemma_lex_transitive(before[a], before[pos as int], before[b - 1]);
                        }
                    }
                } else if a == pos {
                    assert(after[b] == before[b - 1]);
                    if b - 1 > pos {
                        lemma_lex_transitive(xv, before[pos as int], before[b - 1]);
                    }
                } else {
                    assert(after[a] == before[a - 1]);
                    assert(after[b] == before[b - 1]);
                }
            }
            assert forall|y: Seq<char>| #[trigger] after.contains(y) <==> (before.contains(y) || y == xv) by {
                if after.contains(y) {
                    let k = choose|k: int| 0 <= k < after.len() && after[k] == y;
                    if k < pos {
                        assert(before[k] == y);
                    } else if k > pos {
                        assert(before[k - 1] == y);
                    }
                }
                if before.contains(y) {
                    let k = choose|k: int| 0 <= k < before.len() && before[k] == y;
                    if k < pos {
                        assert(after[k] == y);
                    } else {
                        assert(after[k + 1] == y);
                    }
                }
                if y == xv {
                    assert(after[pos as int] == xv);
                }
            }
            assert(strings_view(items@).take(i + 1) =~= strings_view(items@).take(i as int).push(xv));
            crate::common::strset::lemma_push_to_set(strings_view(items@).take(i as int), xv);
            assert(after.to_set() =~= strings_view(items@).take(i + 1).to_set());
        }
        i = i + 1;
    }
    assert(strings_view(items@).take(items@.len() as int) =~= strings_view(items@));
    out
}

} // verus!
