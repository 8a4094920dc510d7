//! A finite set of strings, kept as a duplicate-free vector.

use vstd::prelude::*;

use crate::common::text::str_eq;

verus! {

/// The character sequences of a sequence of strings.
pub open spec fn strings_view(v: Seq<String>) -> Seq<Seq<char>> {
    v.map_values(|s: String| s@)
}

/// Appending `x` to a sequence adds `x` to its set of elements.
pub proof fn lemma_push_to_set<A>(s: Seq<A>, x: A)
    ensures
        s.push(x).to_set() == s.to_set().insert(x),
{
    assert forall|a: A| #[trigger] s.push(x).contains(a) <==> (s.contains(a) || a == x) by {
        if s.push(x).contains(a) {
            let k = choose|k: int| 0 <= k < s.push(x).len() && s.push(x)[k] == a;
            if k < s.len() {
                assert(s[k] == s.push(x)[k]);
            }
        }
        if s.contains(a) {
            let k = choose|k: int| 0 <= k < s.len() && s[k] == a;
            assert(s.push(x)[k] == s[k]);
        }
        if a == x {
            assert(s.push(x)[s.len() as int] == x);
        }
    }
    assert(s.push(x).to_set() =~= s.to_set().insert(x));
}

/// An equal copy of a vector of strings.
pub fn clone_strings(v: &Vec<String>) -> (r: Vec<String>)
    ensures
        r@ == v@,
{
    let mut out: Vec<String> = Vec::new();
    let mut i: usize = 0;
    while i < v.len()
        invariant
            i <= v@.len(),
            out@ == v@.take(i as int),
        decreases v@.len() - i,
    {
        out.push(v[i].clone());
        assert(out@ =~= v@.take(i + 1));
        i = i + 1;
    }
    assert(v@.take(v@.len() as int) =~= v@);
    out
}

/// A set of strings; no string occurs twice in `items`.
pub struct StringSet {
    items: Vec<String>,
}

impl View for StringSet {
    type V = Set<Seq<char>>;

    closed spec fn view(&self) -> Set<Seq<char>> {
        strings_view(self.items@).to_set()
    }
}

impl StringSet {
    #[verifier::type_invariant]
    closed spec fn inv(self) -> bool {
        strings_view(self.items@).no_duplicates()
    }

    /// The elements, in insertion order.
    pub closed spec fn elems(&self) -> Seq<Seq<char>> {
        strings_view(self.items@)
    }

    proof fn lemma_unique(e: Seq<Seq<char>>)
        requires
            e.no_duplicates(),
        ensures
            e.to_set().finite(),
            e.to_set().len() == e.len(),
    {
        e.unique_seq_to_set();
        vstd::seq_lib::seq_to_set_is_finite(e);
    }

    pub fn new() -> (r: StringSet)
        ensures
            r@ == Set::<Seq<char>>::empty(),
            r.elems().len() == 0,
    {
        let r = StringSet { items: Vec::new() };
        assert(r.elems() =~= Seq::<Seq<char>>::empty());
        r
    }

    pub fn contains(&self, s: &str) -> (r: bool)
        ensures
            r == self@.contains(s@),
    {
        let mut i: usize = 0;
        while i < self.items.len()
            invariant
                i <= self.items@.len(),
                forall|k: int| 0 <= k < i ==> self.items@[k]@ != s@,
            decreases self.items@.len() - i,
        {
            if str_eq(self.items[i].as_str(), s) {
                assert(strings_view(self.items@)[i as int] == s@);
                return true;
            }
            i = i + 1;
        }
        proof {
            if self@.contains(s@) {
                let k = choose|k: int| 0 <= k < strings_view(self.items@).len() && strings_view(self.items@)[k] == s@;
                assert(self.items@[k]@ == s@);
            }
        }
        false
    }

    /// Adds `s`; a string already present is not added twice.
    pub fn insert(&mut self, s: String)
        ensures
            final(self)@ == old(self)@.insert(s@),
            old(self)@.contains(s@) ==> final(self).elems() == old(self).elems(),
            !old(self)@.contains(s@) ==> final(self).elems() == old(self).elems().push(s@),
    {
        proof { use_type_invariant(&*self); }
        if !self.contains(s.as_str()) {
            let ghost sv = s@;
            let ghost before = strings_view(self.items@);
            let mut v: Vec<String> = Vec::new();
            std::mem::swap(&mut self.items, &mut v);
            v.push(s);
            proof {
                assert(strings_view(v@) =~= before.push(sv));
                assert forall|i: int, j: int| 0 <= i < j < before.push(sv).len() implies before.push(sv)[i] != before.push(sv)[j] by {
                    if j == before.len() {
                        assert(before.contains(before[i]));
                    }
                }
                lemma_push_to_set(before, sv);
            }
            std::mem::swap(&mut self.items, &mut v);
        } else {
            assert(old(self)@.insert(s@) =~= old(self)@);
        }
    }

    pub fn len(&self) -> (r: usize)
        ensures
            r == self@.len(),
    {
        proof {
            use_type_invariant(self);
            Self::lemma_unique(self.elems());
        }
        self.items.len()
    }

    pub fn is_empty(&self) -> (r: bool)
        ensures
            r == (self@.len() == 0),
    {
        proof {
            use_type_invariant(self);
            Self::lemma_unique(self.elems());
        }
        self.items.len() == 0
    }

    /// The elements, each once, in insertion order.
    pub fn items(&self) -> (r: &Vec<String>)
        ensures
            strings_view(r@) == self.elems(),
            self.elems().no_duplicates(),
            self.elems().to_set() == self@,
            self@.finite(),
            self@.len() == self.elems().len(),
    {
        proof {
            use_type_invariant(self);
            Self::lemma_unique(self.elems());
        }
        &self.items
    }
}

/// The set of the given names.
pub fn set_of(names: &Vec<String>) -> (r: StringSet)
    ensures
        r@ == strings_view(names@).to_set(),
{
    let mut set = StringSet::new();
    let mut i: usize = 0;
    while i < names.len()
        invariant
            i <= names@.len(),
            set@ == strings_view(names@).take(i as int).to_set(),
        decreases names@.len() - i,
    {
        let ghost before = strings_view(names@).take(i as int);
        set.insert(names[i].clone());
        proof {
            assert(strings_view(names@).take(i + 1) =~= before.push(names@[i as int]@));
            lemma_push_to_set(before, names@[i as int]@);
        }
        i = i + 1;
    }
    assert(strings_view(names@).take(names@.len() as int) =~= strings_view(names@));
    set
}

} // verus!
