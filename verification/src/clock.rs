//! Instants read from RFC 3339 text and the current time, and whole days between them.

use vstd::prelude::*;

verus! {

/// The instant `chrono::DateTime::parse_from_rfc3339` reads from a text, as
/// (seconds since the Unix epoch, nanoseconds within the second), when it accepts the text.
pub uninterp spec fn rfc3339_instant(s: Seq<char>) -> Option<(i64, u32)>;

/// `chrono::DateTime::parse_from_rfc3339`, then `timestamp` and `timestamp_subsec_nanos`
/// of the result. The grammar of RFC 3339 is not restated: the result is named
/// `rfc3339_instant` of the text.
#[verifier::external_body]
pub(crate) fn parse_rfc3339(s: &str) -> (r: Option<(i64, u32)>)
    ensures
        r == rfc3339_instant(s@),
{
    match chrono::DateTime::parse_from_rfc3339(s) {
        Ok(d) => Some((d.timestamp(), d.timestamp_subsec_nanos())),
        Err(_) => None,
    }
}

/// `chrono::Utc::now()`, as (seconds since the Unix epoch, nanoseconds within the second).
/// Nothing is promised of the value: it is the machine's clock.
#[verifier::external_body]
pub(crate) fn utc_now() -> (i64, u32) {
    let n = chrono::Utc::now();
    (n.timestamp(), n.timestamp_subsec_nanos())
}

/// Integer division truncating toward zero (`b > 0`).
pub open spec fn tdiv(a: int, b: int) -> int {
    if a >= 0 {
        a / b
    } else {
        -((-a) / b)
    }
}

/// The whole days from `then` to `now` (negative when `then` is later), as
/// `(now - then).num_days()` counts them: whole seconds truncated toward zero, then
/// whole days truncated toward zero.
pub open spec fn whole_days(now: (i64, u32), then: (i64, u32)) -> int {
    let d = (now.0 - then.0) * 1_000_000_000 + (now.1 - then.1);
    tdiv(tdiv(d, 1_000_000_000), 86400)
}

/// The whole days from `then` to `now`.
pub fn days_between(now: (i64, u32), then: (i64, u32)) -> (r: i64)
    ensures
        r == whole_days(now, then),
{
    let d: i128 = ((now.0 as i128) - (then.0 as i128)) * 1_000_000_000 + ((now.1 as i128) - (
    then.1 as i128));
    if d >= 0 {
        let a = d as u128;
        let secs = a / 1_000_000_000;
        let days = secs / 86400;
        assert(days <= i64::MAX) by (nonlinear_arith)
            requires
                a <= 2 * 0x1_0000_0000_0000_0000 * 1_000_000_000 + 10_000_000_000,
                secs == a / 1_000_000_000,
                days == secs / 86400,
        ;
        days as i64
    } else {
        let a = (-d) as u128;
        let secs = a / 1_000_000_000;
        let days = secs / 86400;
        assert(days <= i64::MAX) by (nonlinear_arith)
            requires
                a <= 2 * 0x1_0000_0000_0000_0000 * 1_000_000_000 + 10_000_000_000,
                secs == a / 1_000_000_000,
                days == secs / 86400,
        ;
        assert(tdiv(d as int, 1_000_000_000) == -(secs as int));
        assert(tdiv(-(secs as int), 86400) == -(days as int));
        -(days as i64)
    }
}


/// Whole days count 86,400-second days: `days` days and any part of a day after `then`
/// are `days` whole days, and as many before it are minus `days`.
pub proof fn law_whole_days(then: (i64, u32), days: nat, extra: nat)
    requires
        extra < 86400,
        then.1 < 1_000_000_000,
        then.0 + days * 86400 + extra <= i64::MAX,
        then.0 - days * 86400 - extra >= i64::MIN,
    ensures
        whole_days(((then.0 + days * 86400 + extra) as i64, then.1), then) == days,
        whole_days(((then.0 - days * 86400 - extra) as i64, then.1), then) == -days,
{
    let s = days * 86400 + extra;
    assert((s * 1_000_000_000) / 1_000_000_000 == s) by (nonlinear_arith);
    assert(s / 86400 == days) by (nonlinear_arith)
        requires
            s == days * 86400 + extra,
            extra < 86400,
    ;
    assert((-s) * 1_000_000_000 == -(s * 1_000_000_000));
}

} // verus!
