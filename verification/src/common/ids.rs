//! Identifiers are 128-bit values; this is their text form, the
//! lower-case hyphenated UUID (`8-4-4-4-12` hex digits, most significant
//! digit first).

use vstd::prelude::*;

verus! {

/// The lower-case hex digit of `d` (`0 <= d < 16`).
pub open spec fn hex_lower(d: int) -> char {
    if d < 10 {
        (('0' as int) + d) as char
    } else {
        (('a' as int) + d - 10) as char
    }
}

/// The last `count` hex digits of `n`, most significant first.
pub open spec fn hex_digits(n: nat, count: nat) -> Seq<char>
    decreases count,
{
    if count == 0 {
        Seq::empty()
    } else {
        hex_digits(n / 16, (count - 1) as nat).push(hex_lower((n % 16) as int))
    }
}

/// The hyphenated text of an identifier.
pub open spec fn uuid_hyphenated(id: u128) -> Seq<char> {
    let h = hex_digits(id as nat, 32);
    h.subrange(0, 8) + seq!['-'] + h.subrange(8, 12) + seq!['-'] + h.subrange(12, 16) + seq!['-']
        + h.subrange(16, 20) + seq!['-'] + h.subrange(20, 32)
}

/// What `uuid::Uuid::parse_str` reads from a text, as the 128-bit value,
/// or `None` where it reports an error.
pub uninterp spec fn uuid_from_text(s: Seq<char>) -> Option<u128>;

/// `uuid::Uuid::from_u128(id).to_string()`: the crate's `Display` is the
/// lower-case hyphenated form of the big-endian value, and `parse_str`
/// reads that form back.
#[verifier::external_body]
pub(crate) fn uuid_text(id: u128) -> (r: String)
    ensures
        r@ == uuid_hyphenated(id),
        uuid_from_text(r@) == Some(id),
{
    uuid::Uuid::from_u128(id).to_string()
}

/// `uuid::Uuid::parse_str(s)`, as the 128-bit value.
#[verifier::external_body]
pub(crate) fn parse_uuid(s: &str) -> (r: Option<u128>)
    ensures
        r == uuid_from_text(s@),
{
    match uuid::Uuid::parse_str(s) {
        Ok(u) => Some(u.as_u128()),
        Err(_) => None,
    }
}

} // verus!
