//! Percent-encoding (`urlencoding::encode`) and redirect URI building.

use vstd::prelude::*;

use vstd::utf8::encode_utf8;

verus! {

/// Bytes `urlencoding::encode` leaves alone: ASCII letters, digits, `-`,
/// `.`, `_` and `~`.
pub open spec fn is_unreserved(b: u8) -> bool {
    ||| 0x30 <= b <= 0x39
    ||| 0x41 <= b <= 0x5a
    ||| 0x61 <= b <= 0x7a
    ||| b == 0x2d
    ||| b == 0x2e
    ||| b == 0x5f
    ||| b == 0x7e
}

/// An upper-case hexadecimal digit.
pub open spec fn hex_upper(d: int) -> char {
    if d < 10 {
        ((48 + d) as u32) as char
    } else {
        ((55 + d) as u32) as char
    }
}

pub open spec fn percent_encode_bytes(b: Seq<u8>) -> Seq<char>
    decreases b.len(),
{
    if b.len() == 0 {
        Seq::empty()
    } else {
        let first = if is_unreserved(b[0]) {
            seq![(b[0] as u32) as char]
        } else {
            seq!['%', hex_upper(b[0] as int / 16), hex_upper(b[0] as int % 16)]
        };
        first + percent_encode_bytes(b.drop_first())
    }
}

/// `urlencoding::encode`: every UTF-8 byte but the unreserved ones
/// becomes `%XX`.
pub open spec fn url_encode(s: Seq<char>) -> Seq<char> {
    percent_encode_bytes(encode_utf8(s))
}

/// `urlencoding::encode`.
#[verifier::external_body]
pub(crate) fn url_encode_str(s: &str) -> (r: String)
    ensures
        r@ == url_encode(s@),
{
    urlencoding::encode(s).into_owned()
}

/// The characters of key/value pairs.
pub open spec fn pairs_view(v: Seq<(String, String)>) -> Seq<(Seq<char>, Seq<char>)> {
    v.map_values(|p: (String, String)| (p.0@, p.1@))
}

/// `k1=v1&k2=v2...`, keys and values percent-encoded.
pub open spec fn query_string(ps: Seq<(Seq<char>, Seq<char>)>) -> Seq<char>
    decreases ps.len(),
{
    if ps.len() == 0 {
        Seq::empty()
    } else {
        let last = url_encode(ps.last().0) + seq!['='] + url_encode(ps.last().1);
        if ps.len() == 1 {
            last
        } else {
            query_string(ps.drop_last()) + seq!['&'] + last
        }
    }
}

/// `base` with the pairs appended as query parameters, after `&` when
/// `base` already has a `?`, else after `?`.
pub open spec fn with_query(base: Seq<char>, ps: Seq<(Seq<char>, Seq<char>)>) -> Seq<char> {
    base + seq![if base.contains('?') { '&' } else { '?' }] + query_string(ps)
}

pub fn contains_char(s: &str, c: char) -> (r: bool)
    ensures
        r == s@.contains(c),
{
    let cs = crate::common::text::chars_of(s);
    let mut i: usize = 0;
    while i < cs.len()
        invariant
            cs@ == s@,
            i <= cs@.len(),
            forall|k: int| 0 <= k < i ==> cs@[k] != c,
        decreases cs@.len() - i,
    {
        if cs[i] == c {
            return true;
        }
        i = i + 1;
    }
    false
}

/// Appends the pairs to `base_uri` as a query string.
pub fn build_redirect(base_uri: &str, params: &Vec<(String, String)>) -> (r: String)
    ensures
        r@ == with_query(base_uri@, pairs_view(params@)),
{
    let mut out = base_uri.to_owned();
    let sep = if contains_char(base_uri, '?') {
        '&'
    } else {
        '?'
    };
    crate::common::text::push_char(&mut out, sep);
    let ghost start = out@;
    let mut i: usize = 0;
    while i < params.len()
        invariant
            i <= params@.len(),
            start == base_uri@ + seq![sep],
            sep == (if base_uri@.contains('?') { '&' } else { '?' }),
            out@ == start + query_string(pairs_view(params@).take(i as int)),
        decreases params@.len() - i,
    {
        let ghost before = out@;
        if i > 0 {
            crate::common::text::push_char(&mut out, '&');
        }
        let k = url_encode_str(params[i].0.as_str());
        let v = url_encode_str(params[i].1.as_str());
        out.append(k.as_str());
        crate::common::text::push_char(&mut out, '=');
        out.append(v.as_str());
        proof {
            let ps = pairs_view(params@).take(i + 1);
            assert(ps.drop_last() =~= pairs_view(params@).take(i as int));
            assert(ps.last() == (params@[i as int].0@, params@[i as int].1@));
            if i == 0 {
                assert(pairs_view(params@).take(0) =~= Seq::<(Seq<char>, Seq<char>)>::empty());
            }
            assert(out@ =~= start + query_string(ps));
        }
        i = i + 1;
    }
    assert(pairs_view(params@).take(params@.len() as int) =~= pairs_view(params@));
    out
}

} // verus!
