//! Characters and strings: the Unicode `White_Space` class, trimming,
//! tokenising, comparisons and decimal rendering.

use vstd::prelude::*;

verus! {

/// The Unicode `White_Space` property, which is what `char::is_whitespace`
/// and `str::trim` go by.
pub open spec fn is_white_space(c: char) -> bool {
    let u = c as u32;
    ||| 0x9 <= u <= 0xd
    ||| u == 0x20
    ||| u == 0x85
    ||| u == 0xa0
    ||| u == 0x1680
    ||| 0x2000 <= u <= 0x200a
    ||| u == 0x2028
    ||| u == 0x2029
    ||| u == 0x202f
    ||| u == 0x205f
    ||| u == 0x3000
}

pub fn is_whitespace(c: char) -> (r: bool)
    ensures
        r == is_white_space(c),
{
    let u = c as u32;
    (0x9 <= u && u <= 0xd) || u == 0x20 || u == 0x85 || u == 0xa0 || u == 0x1680 || (0x2000
        <= u && u <= 0x200a) || u == 0x2028 || u == 0x2029 || u == 0x202f || u == 0x205f || u
        == 0x3000
}

/// Every character is white space (the empty string included).
pub open spec fn is_blank(s: Seq<char>) -> bool {
    forall|i: int| 0 <= i < s.len() ==> is_white_space(#[trigger] s[i])
}

pub open spec fn trim_start(s: Seq<char>) -> Seq<char>
    decreases s.len(),
{
    if s.len() > 0 && is_white_space(s[0]) {
        trim_start(s.drop_first())
    } else {
        s
    }
}

pub open spec fn trim_end(s: Seq<char>) -> Seq<char>
    decreases s.len(),
{
    if s.len() > 0 && is_white_space(s.last()) {
        trim_end(s.drop_last())
    } else {
        s
    }
}

/// What `str::trim` returns: white space removed at both ends.
pub open spec fn trim(s: Seq<char>) -> Seq<char> {
    trim_end(trim_start(s))
}

pub proof fn lemma_trim_empty_iff_blank(s: Seq<char>)
    ensures
        (trim(s).len() == 0) == is_blank(s),
    decreases s.len(),
{
    if s.len() > 0 && is_white_space(s[0]) {
        lemma_trim_empty_iff_blank(s.drop_first());
        if is_blank(s.drop_first()) {
            assert forall|i: int| 0 <= i < s.len() implies is_white_space(#[trigger] s[i]) by {
                if i > 0 {
                    assert(s[i] == s.drop_first()[i - 1]);
                }
            }
        } else {
            let k = choose|k: int| 0 <= k < s.drop_first().len() && !is_white_space(s.drop_first()[k]);
            assert(s[k + 1] == s.drop_first()[k]);
        }
    } else if s.len() > 0 {
        lemma_trim_end_keeps_first(s);
    }
}

proof fn lemma_trim_end_keeps_first(s: Seq<char>)
    requires
        s.len() > 0,
        !is_white_space(s[0]),
    ensures
        trim_end(s).len() > 0,
    decreases s.len(),
{
    if is_white_space(s.last()) {
        if s.len() == 1 {
            assert(s.last() == s[0]);
        } else {
            assert(s.drop_last()[0] == s[0]);
            lemma_trim_end_keeps_first(s.drop_last());
        }
    }
}

pub proof fn lemma_trim_start_suffix(s: Seq<char>, i: int)
    requires
        0 <= i <= s.len(),
        forall|k: int| 0 <= k < i ==> is_white_space(#[trigger] s[k]),
    ensures
        trim_start(s.subrange(i, s.len() as int)) == trim_start(s),
    decreases i,
{
    if i > 0 {
        lemma_trim_start_suffix(s, i - 1);
        let t = s.subrange(i - 1, s.len() as int);
        assert(t[0] == s[i - 1]);
        assert(t.drop_first() =~= s.subrange(i, s.len() as int));
    } else {
        assert(s.subrange(0, s.len() as int) =~= s);
    }
}

pub proof fn lemma_trim_end_prefix(s: Seq<char>, j: int)
    requires
        0 <= j <= s.len(),
        forall|k: int| j <= k < s.len() ==> is_white_space(#[trigger] s[k]),
    ensures
        trim_end(s.subrange(0, j)) == trim_end(s),
    decreases s.len() - j,
{
    if j < s.len() {
        lemma_trim_end_prefix(s, j + 1);
        let t = s.subrange(0, j + 1);
        assert(t.last() == s[j]);
        assert(t.drop_last() =~= s.subrange(0, j));
    } else {
        assert(s.subrange(0, s.len() as int) =~= s);
    }
}

/// The characters of `s`, in order.
pub fn chars_of(s: &str) -> (v: Vec<char>)
    ensures
        v@ == s@,
{
    let mut v: Vec<char> = Vec::new();
    for c in it: s.chars()
        invariant
            v@ == it.seq().take(it.index() as int),
    {
        v.push(c);
    }
    assert(v@ =~= s@);
    v
}

/// `str::trim`, as an owned string.
pub fn trim_str(s: &str) -> (r: String)
    ensures
        r@ == trim(s@),
{
    let cs = chars_of(s);
    let n = cs.len();
    let mut i: usize = 0;
    while i < n && is_whitespace(cs[i])
        invariant
            cs@ == s@,
            n == cs@.len(),
            i <= n,
            forall|k: int| 0 <= k < i ==> is_white_space(#[trigger] s@[k]),
        decreases n - i,
    {
        i = i + 1;
    }
    proof {
        lemma_trim_start_suffix(s@, i as int);
        let t = s@.subrange(i as int, n as int);
        if t.len() > 0 {
            assert(t[0] == s@[i as int]);
        }
        assert(trim_start(t) == t);
    }
    let mut j: usize = n;
    while j > i && is_whitespace(cs[j - 1])
        invariant
            cs@ == s@,
            n == cs@.len(),
            i <= j <= n,
            forall|k: int| j <= k < n ==> is_white_space(#[trigger] s@[k]),
        decreases j,
    {
        j = j - 1;
    }
    let t = s.substring_char(i, j);
    proof {
        let u = s@.subrange(i as int, n as int);
        assert forall|k: int| (j - i) <= k < u.len() implies is_white_space(#[trigger] u[k]) by {
            assert(u[k] == s@[k + i]);
        }
        lemma_trim_end_prefix(u, j - i);
        assert(u.subrange(0, j - i) =~= s@.subrange(i as int, j as int));
        let w = s@.subrange(i as int, j as int);
        if w.len() > 0 {
            assert(w.last() == s@[j - 1]);
        }
        assert(trim_end(w) == w);
    }
    t.to_owned()
}

/// Whether two strings hold the same characters.
pub fn str_eq(a: &str, b: &str) -> (r: bool)
    ensures
        r == (a@ == b@),
{
    let x = chars_of(a);
    let y = chars_of(b);
    if x.len() != y.len() {
        return false;
    }
    let mut i: usize = 0;
    while i < x.len()
        invariant
            x@ == a@,
            y@ == b@,
            x@.len() == y@.len(),
            i <= x@.len(),
            forall|k: int| 0 <= k < i ==> x@[k] == y@[k],
        decreases x@.len() - i,
    {
        if x[i] != y[i] {
            return false;
        }
        i = i + 1;
    }
    assert(a@ =~= b@);
    true
}


/// ASCII lower-casing of one character; other characters are unchanged.
pub open spec fn ascii_lower(c: char) -> char {
    if 'A' <= c <= 'Z' {
        ((c as u32) + 32) as char
    } else {
        c
    }
}

/// `str::eq_ignore_ascii_case`: equal once ASCII letters are lower-cased.
pub open spec fn eq_ignore_ascii_case_spec(a: Seq<char>, b: Seq<char>) -> bool {
    &&& a.len() == b.len()
    &&& forall|i: int| 0 <= i < a.len() ==> ascii_lower(#[trigger] a[i]) == ascii_lower(b[i])
}

fn to_ascii_lower(c: char) -> (r: char)
    ensures
        r == ascii_lower(c),
{
    if 'A' <= c && c <= 'Z' {
        let u = (c as u32) + 32;
        assert(0x61 <= u <= 0x7a);
        u as u8 as char
    } else {
        c
    }
}

pub fn eq_ignore_ascii_case(a: &str, b: &str) -> (r: bool)
    ensures
        r == eq_ignore_ascii_case_spec(a@, b@),
{
    let x = chars_of(a);
    let y = chars_of(b);
    if x.len() != y.len() {
        return false;
    }
    let mut i: usize = 0;
    while i < x.len()
        invariant
            x@ == a@,
            y@ == b@,
            x@.len() == y@.len(),
            i <= x@.len(),
            forall|k: int| 0 <= k < i ==> ascii_lower(#[trigger] x@[k]) == ascii_lower(y@[k]),
        decreases x@.len() - i,
    {
        if to_ascii_lower(x[i]) != to_ascii_lower(y[i]) {
            return false;
        }
        i = i + 1;
    }
    true
}

/// `s` begins with `p`, ASCII letters compared without case.
pub open spec fn starts_with_ignore_ascii_case_spec(s: Seq<char>, p: Seq<char>) -> bool {
    p.len() <= s.len() && eq_ignore_ascii_case_spec(s.take(p.len() as int), p)
}

pub fn starts_with_ignore_ascii_case(s: &str, p: &str) -> (r: bool)
    ensures
        r == starts_with_ignore_ascii_case_spec(s@, p@),
{
    let x = chars_of(s);
    let y = chars_of(p);
    if y.len() > x.len() {
        return false;
    }
    let mut i: usize = 0;
    while i < y.len()
        invariant
            x@ == s@,
            y@ == p@,
            y@.len() <= x@.len(),
            i <= y@.len(),
            forall|k: int| 0 <= k < i ==> ascii_lower(#[trigger] x@[k]) == ascii_lower(y@[k]),
        decreases y@.len() - i,
    {
        if to_ascii_lower(x[i]) != to_ascii_lower(y[i]) {
            assert(s@.take(p@.len() as int)[i as int] == x@[i as int]);
            return false;
        }
        i = i + 1;
    }
    assert forall|k: int| 0 <= k < p@.len() implies ascii_lower(#[trigger] s@.take(p@.len() as int)[k]) == ascii_lower(p@[k]) by {
        assert(s@.take(p@.len() as int)[k] == x@[k]);
    }
    true
}

/// Separators for tokenising: white space, and also `,` when `comma`.
pub open spec fn is_separator(c: char, comma: bool) -> bool {
    is_white_space(c) || (comma && c == ',')
}

/// Left-to-right tokeniser state over `s`: the finished tokens and the
/// token being read.
pub open spec fn split_state(s: Seq<char>, comma: bool) -> (Seq<Seq<char>>, Seq<char>)
    decreases s.len(),
{
    if s.len() == 0 {
        (Seq::empty(), Seq::empty())
    } else {
        let (done, cur) = split_state(s.drop_last(), comma);
        if is_separator(s.last(), comma) {
            (if cur.len() > 0 { done.push(cur) } else { done }, Seq::empty())
        } else {
            (done, cur.push(s.last()))
        }
    }
}

/// The maximal non-empty runs of non-separator characters of `s`, in order.
pub open spec fn tokens(s: Seq<char>, comma: bool) -> Seq<Seq<char>> {
    let (done, cur) = split_state(s, comma);
    if cur.len() > 0 {
        done.push(cur)
    } else {
        done
    }
}

/// A token: non-empty and free of separators.
pub open spec fn is_token(t: Seq<char>, comma: bool) -> bool {
    &&& t.len() > 0
    &&& forall|i: int| 0 <= i < t.len() ==> !is_separator(#[trigger] t[i], comma)
}

pub proof fn lemma_split_state_tokens(s: Seq<char>, comma: bool)
    ensures
        forall|i: int|
            0 <= i < split_state(s, comma).0.len() ==> is_token(
                #[trigger] split_state(s, comma).0[i],
                comma,
            ),
        forall|i: int|
            0 <= i < split_state(s, comma).1.len() ==> !is_separator(
                #[trigger] split_state(s, comma).1[i],
                comma,
            ),
    decreases s.len(),
{
    if s.len() > 0 {
        lemma_split_state_tokens(s.drop_last(), comma);
        let (done, cur) = split_state(s.drop_last(), comma);
        if !is_separator(s.last(), comma) {
            assert forall|i: int| 0 <= i < cur.push(s.last()).len() implies !is_separator(
                #[trigger] cur.push(s.last())[i],
                comma,
            ) by {
                if i < cur.len() {
                    assert(cur.push(s.last())[i] == cur[i]);
                }
            }
        }
    }
}

/// Every token is non-empty and free of separators.
pub proof fn lemma_tokens_are_tokens(s: Seq<char>, comma: bool)
    ensures
        forall|i: int| 0 <= i < tokens(s, comma).len() ==> is_token(#[trigger] tokens(s, comma)[i], comma),
{
    lemma_split_state_tokens(s, comma);
}

/// A blank string has no tokens.
pub proof fn lemma_blank_no_tokens(s: Seq<char>, comma: bool)
    requires
        is_blank(s),
    ensures
        split_state(s, comma).0.len() == 0,
        split_state(s, comma).1.len() == 0,
        tokens(s, comma).len() == 0,
    decreases s.len(),
{
    if s.len() > 0 {
        assert(is_white_space(s[s.len() - 1]));
        assert forall|i: int| 0 <= i < s.drop_last().len() implies is_white_space(
            #[trigger] s.drop_last()[i],
        ) by {
            assert(s.drop_last()[i] == s[i]);
        }
        lemma_blank_no_tokens(s.drop_last(), comma);
    }
}

/// The strings joined with single spaces.
pub open spec fn join_space(l: Seq<Seq<char>>) -> Seq<char>
    decreases l.len(),
{
    if l.len() == 0 {
        Seq::empty()
    } else if l.len() == 1 {
        l[0]
    } else {
        join_space(l.drop_last()) + seq![' '] + l.last()
    }
}

proof fn lemma_split_state_extend(s: Seq<char>, t: Seq<char>, comma: bool)
    requires
        forall|i: int| 0 <= i < t.len() ==> !is_separator(#[trigger] t[i], comma),
    ensures
        split_state(s + t, comma) == (split_state(s, comma).0, split_state(s, comma).1 + t),
    decreases t.len(),
{
    if t.len() == 0 {
        assert(s + t =~= s);
        assert(split_state(s, comma).1 + t =~= split_state(s, comma).1);
    } else {
        lemma_split_state_extend(s, t.drop_last(), comma);
        assert((s + t).drop_last() =~= s + t.drop_last());
        assert((s + t).last() == t.last());
        assert(split_state(s, comma).1 + t.drop_last() + seq![t.last()] =~= split_state(s, comma).1 + t);
        assert((split_state(s, comma).1 + t.drop_last()).push(t.last()) =~= split_state(s, comma).1 + t);
    }
}

/// Splitting space-joined tokens gives the tokens back.
pub proof fn lemma_tokens_of_join(l: Seq<Seq<char>>, comma: bool)
    requires
        forall|i: int| 0 <= i < l.len() ==> is_token(#[trigger] l[i], comma),
    ensures
        tokens(join_space(l), comma) == l,
    decreases l.len(),
{
    if l.len() == 0 {
        assert(tokens(Seq::<char>::empty(), comma) =~= l);
    } else if l.len() == 1 {
        assert(is_token(l[0], comma));
        lemma_split_state_extend(Seq::empty(), l[0], comma);
        assert(Seq::<char>::empty() + l[0] =~= l[0]);
        assert(Seq::<char>::empty() + l[0] =~= l[0]);
        assert(tokens(l[0], comma) =~= l);
    } else {
        let j = join_space(l.drop_last());
        assert forall|i: int| 0 <= i < l.drop_last().len() implies is_token(#[trigger] l.drop_last()[i], comma) by {
            assert(l.drop_last()[i] == l[i]);
        }
        lemma_tokens_of_join(l.drop_last(), comma);
        let js = j + seq![' '];
        assert(js.drop_last() =~= j);
        assert(is_white_space(js.last()));
        assert(split_state(js, comma) == (tokens(j, comma), Seq::<char>::empty()));
        assert(is_token(l.last(), comma));
        lemma_split_state_extend(js, l.last(), comma);
        assert(Seq::<char>::empty() + l.last() =~= l.last());
        assert(tokens(js + l.last(), comma) =~= l.drop_last().push(l.last()));
        assert(l.drop_last().push(l.last()) =~= l);
    }
}

/// Appends one character (`String::push`).
#[verifier::external_body]
pub(crate) fn push_char(s: &mut String, c: char)
    ensures
        final(s)@ == old(s)@.push(c),
{
    s.push(c)
}

/// The decimal digits of `n`, most significant first.
pub open spec fn nat_decimal(n: nat) -> Seq<char>
    decreases n,
{
    if n < 10 {
        seq![((48 + n) as u32) as char]
    } else {
        nat_decimal(n / 10).push(((48 + n % 10) as u32) as char)
    }
}

/// The decimal rendering of an integer, with `-` before negative ones.
pub open spec fn int_decimal(n: int) -> Seq<char> {
    if n < 0 {
        seq!['-'] + nat_decimal((-n) as nat)
    } else {
        nat_decimal(n as nat)
    }
}

/// Appends the decimal rendering of `n`.
pub fn push_decimal(out: &mut String, n: u64)
    ensures
        final(out)@ == old(out)@ + nat_decimal(n as nat),
    decreases n,
{
    if n >= 10 {
        push_decimal(out, n / 10);
    }
    let d = (n % 10) as u8;
    let c = (48u8 + d) as char;
    assert(c == ((48 + (n as nat) % 10) as u32) as char);
    push_char(out, c);
    proof {
        if n >= 10 {
            assert(nat_decimal(n as nat) == nat_decimal((n / 10) as nat).push(c));
        } else {
            assert(nat_decimal(n as nat) =~= seq![c]);
        }
        assert(final(out)@ =~= old(out)@ + nat_decimal(n as nat));
    }
}

/// Appends the decimal rendering of `n` (as `{}` formats an `i64`).
pub fn push_i64(out: &mut String, n: i64)
    ensures
        final(out)@ == old(out)@ + int_decimal(n as int),
{
    if n < 0 {
        push_char(out, '-');
        let m: u64 = if n == i64::MIN {
            9223372036854775808u64
        } else {
            (-n) as u64
        };
        push_decimal(out, m);
        assert(final(out)@ =~= old(out)@ + int_decimal(n as int));
    } else {
        push_decimal(out, n as u64);
    }
}

/// `a` followed by `b`.
pub fn concat(a: &str, b: &str) -> (r: String)
    ensures
        r@ == a@ + b@,
{
    let mut r = a.to_owned();
    r.append(b);
    r
}

/// The characters of an optional string slice.
pub open spec fn opt_str(o: Option<&str>) -> Option<Seq<char>> {
    match o {
        Some(s) => Some(s@),
        None => None,
    }
}

/// The characters of an optional string slice; absent reads as empty.
pub open spec fn str_or_empty(o: Option<&str>) -> Seq<char> {
    match o {
        Some(s) => s@,
        None => Seq::empty(),
    }
}

/// An optional string slice, absent read as the empty slice.
pub fn or_empty(o: Option<&str>) -> (r: &str)
    ensures
        r@ == str_or_empty(o),
{
    match o {
        Some(s) => s,
        None => {
            proof { reveal_strlit(""); }
            ""
        },
    }
}

/// The characters of an optional string.
pub open spec fn opt_string(o: Option<String>) -> Option<Seq<char>> {
    match o {
        Some(s) => Some(s@),
        None => None,
    }
}

/// The characters of an optional string; absent reads as empty.
pub open spec fn string_or_empty(o: Option<String>) -> Seq<char> {
    match o {
        Some(s) => s@,
        None => Seq::empty(),
    }
}

/// An equal copy of an optional string.
pub fn clone_opt(o: &Option<String>) -> (r: Option<String>)
    ensures
        r == *o,
{
    match o {
        Some(s) => Some(s.clone()),
        None => None,
    }
}

/// Borrows an optional string as an optional slice.
pub fn as_opt_str(o: &Option<String>) -> (r: Option<&str>)
    ensures
        opt_str(r) == opt_string(*o),
{
    match o {
        Some(s) => Some(s.as_str()),
        None => None,
    }
}

/// An owned copy of an optional slice.
pub fn to_owned_opt(o: Option<&str>) -> (r: Option<String>)
    ensures
        opt_string(r) == opt_str(o),
{
    match o {
        Some(s) => Some(s.to_owned()),
        None => None,
    }
}

/// Joins the strings with single spaces.
pub fn join_with_space(v: &Vec<String>) -> (r: String)
    ensures
        r@ == join_space(crate::common::strset::strings_view(v@)),
{
    let mut out = String::new();
    let mut i: usize = 0;
    while i < v.len()
        invariant
            i <= v@.len(),
            out@ == join_space(crate::common::strset::strings_view(v@).take(i as int)),
        decreases v@.len() - i,
    {
        let ghost l = crate::common::strset::strings_view(v@).take(i + 1);
        if i > 0 {
            push_char(&mut out, ' ');
        }
        out.append(v[i].as_str());
        proof {
            assert(l.drop_last() =~= crate::common::strset::strings_view(v@).take(i as int));
            assert(l.last() == v@[i as int]@);
            if i == 0 {
                assert(join_space(crate::common::strset::strings_view(v@).take(0)) =~= Seq::<char>::empty());
                assert(out@ =~= join_space(l));
            } else {
                assert(out@ =~= join_space(l));
            }
        }
        i = i + 1;
    }
    assert(crate::common::strset::strings_view(v@).take(v@.len() as int) =~= crate::common::strset::strings_view(v@));
    out
}

/// What `str::to_uppercase` gives for `s`: the Unicode upper-case mapping
/// of each character, which may change the length.
pub uninterp spec fn uppercase_of(s: Seq<char>) -> Seq<char>;

/// `str::to_uppercase`.
#[verifier::external_body]
pub(crate) fn to_uppercase(s: &str) -> (r: String)
    ensures
        r@ == uppercase_of(s@),
{
    s.to_uppercase()
}

/// What `str::to_lowercase` gives for `s`: the Unicode lower-case mapping
/// of each character (with the final-sigma rule), which may change the
/// length.
pub uninterp spec fn lowercase_of(s: Seq<char>) -> Seq<char>;

/// `str::to_lowercase`.
#[verifier::external_body]
pub(crate) fn to_lowercase(s: &str) -> (r: String)
    ensures
        r@ == lowercase_of(s@),
{
    s.to_lowercase()
}

} // verus!
