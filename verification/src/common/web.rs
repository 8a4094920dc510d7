//! Reading credentials off a request: the bearer token of an
//! `Authorization` header (RFC 6750 §2.1, the scheme matched without case).

use vstd::prelude::*;

use crate::common::text::{chars_of, push_char, starts_with_ignore_ascii_case, starts_with_ignore_ascii_case_spec, trim, trim_str};

verus! {

/// The token an `Authorization` header carries: what follows `Bearer `
/// (any ASCII case), trimmed; `None` for another scheme or an empty token.
pub open spec fn bearer_of(header: Seq<char>) -> Option<Seq<char>> {
    if starts_with_ignore_ascii_case_spec(header, "bearer "@) && trim(header.skip(7)).len() > 0 {
        Some(trim(header.skip(7)))
    } else {
        None
    }
}

pub fn bearer_token(header: Option<&str>) -> (r: Option<String>)
    ensures
        match header {
            Some(h) => (match r {
                Some(t) => bearer_of(h@) == Some(t@),
                None => bearer_of(h@) is None,
            }),
            None => r is None,
        },
{
    let h = match header {
        Some(h) => h,
        None => return None,
    };
    proof {
        reveal_strlit("bearer ");
    }
    if !starts_with_ignore_ascii_case(h, "bearer ") {
        return None;
    }
    let cs = chars_of(h);
    let mut rest = String::new();
    let mut i: usize = 7;
    while i < cs.len()
        invariant
            cs@ == h@,
            7 <= i <= cs@.len(),
            rest@ == h@.subrange(7, i as int),
        decreases cs@.len() - i,
    {
        push_char(&mut rest, cs[i]);
        assert(h@.subrange(7, i + 1) =~= h@.subrange(7, i as int).push(cs@[i as int]));
        i = i + 1;
    }
    assert(rest@ =~= h@.skip(7));
    let t = trim_str(rest.as_str());
    if t.unicode_len() == 0 {
        None
    } else {
        Some(t)
    }
}

} // verus!
