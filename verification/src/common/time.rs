//! Instants are `i64` microseconds since the Unix epoch.

use vstd::prelude::*;

verus! {

pub const MICROS_PER_SECOND: i64 = 1_000_000;

/// Division rounding toward zero, as Rust's integer `/` does.
pub open spec fn div_toward_zero(a: int, b: int) -> int {
    if a >= 0 {
        a / b
    } else {
        -((-a) / b)
    }
}

/// Whole seconds from `earlier` to `later`, rounded toward zero (what
/// `chrono::Duration::num_seconds` gives for `later - earlier`).
pub open spec fn seconds_between(later: int, earlier: int) -> int {
    div_toward_zero(later - earlier, MICROS_PER_SECOND as int)
}

pub fn secs_between(later: i64, earlier: i64) -> (r: i64)
    ensures
        r == seconds_between(later as int, earlier as int),
{
    let d: i128 = later as i128 - earlier as i128;
    let q: i128 = if d >= 0 {
        d / 1_000_000
    } else {
        -((-d) / 1_000_000)
    };
    assert(-9_300_000_000_000_000 <= q <= 9_300_000_000_000_000) by (nonlinear_arith)
        requires
            q == (if d >= 0 { d / 1_000_000 } else { -((-d) / 1_000_000) }),
            -18_446_744_073_709_551_616 <= d <= 18_446_744_073_709_551_616,
    ;
    assert(i64::MIN <= q <= i64::MAX) by (nonlinear_arith)
        requires
            q == (if d >= 0 { d / 1_000_000 } else { -((-d) / 1_000_000) }),
            -18_446_744_073_709_551_616 <= d <= 18_446_744_073_709_551_616,
    ;
    q as i64
}

/// `t` moved forward by `secs` seconds.
pub fn plus_seconds(t: i64, secs: i64) -> (r: i64)
    requires
        0 <= secs <= 1_000_000_000,
        t + secs * MICROS_PER_SECOND <= i64::MAX,
    ensures
        r == t + secs * MICROS_PER_SECOND,
{
    t + secs * MICROS_PER_SECOND
}

/// Instants `chrono` represents lie within about 262,000 years of the
/// common era; timestamps rendered as text keep to a slightly narrower
/// range.
pub const DATETIME_LIMIT_MICROS: i64 = 7_800_000_000_000_000_000;

pub open spec fn in_datetime_range(t: int) -> bool {
    -DATETIME_LIMIT_MICROS <= t <= DATETIME_LIMIT_MICROS
}

/// ISO local date-time with fractional seconds, as stored.
pub open spec fn iso_format() -> Seq<char> {
    "%Y-%m-%dT%H:%M:%S%.f"@
}

/// ISO local date-time without fractional seconds.
pub open spec fn iso_format_whole() -> Seq<char> {
    "%Y-%m-%dT%H:%M:%S"@
}

/// The text `chrono` renders for the UTC date-time `t` under `fmt`.
pub uninterp spec fn datetime_formatted(t: i64, fmt: Seq<char>) -> Seq<char>;

/// What `chrono::NaiveDateTime::parse_from_str` reads from `s` under
/// `fmt`, as microseconds since the epoch (UTC); `None` on an error.
pub uninterp spec fn datetime_parsed(s: Seq<char>, fmt: Seq<char>) -> Option<i64>;

/// `chrono::DateTime::from_timestamp_micros(t)`, then `naive_utc`,
/// `format(fmt)` and `to_string`. Rendering panics on a malformed format,
/// so only the two formats of this library are passed.
#[verifier::external_body]
pub(crate) fn format_datetime(t: i64, fmt: &str) -> (r: String)
    requires
        in_datetime_range(t as int),
        fmt@ == iso_format() || fmt@ == iso_format_whole(),
    ensures
        r@ == datetime_formatted(t, fmt@),
{
    match chrono::DateTime::from_timestamp_micros(t) {
        Some(dt) => dt.naive_utc().format(fmt).to_string(),
        None => String::new(),
    }
}

/// `chrono::NaiveDateTime::parse_from_str(s, fmt)`, then `and_utc` and
/// `timestamp_micros`.
#[verifier::external_body]
pub(crate) fn parse_datetime(s: &str, fmt: &str) -> (r: Option<i64>)
    ensures
        r == datetime_parsed(s@, fmt@),
{
    match chrono::NaiveDateTime::parse_from_str(s, fmt) {
        Ok(d) => Some(d.and_utc().timestamp_micros()),
        Err(_) => None,
    }
}

} // verus!
