//! Points in time as nanoseconds since the Unix epoch, and the whole-unit
//! differences that `chrono::TimeDelta` reports.
use vstd::prelude::*;

verus! {

/// Nanoseconds per second.
pub const NANOS_PER_SEC: i128 = 1_000_000_000;

/// Nanoseconds per day.
pub const NANOS_PER_DAY: i128 = 86_400_000_000_000;

/// Nanoseconds per hour.
pub const NANOS_PER_HOUR: i128 = 3_600_000_000_000;

/// The earliest `DateTime<Utc>`, -262143-01-01T00:00:00Z, in nanoseconds
/// since the epoch.
pub open spec fn min_timestamp() -> int {
    -8_334_601_315_200_000_000_000
}

/// The latest `DateTime<Utc>`, +262142-12-31T23:59:59.999999999Z, in
/// nanoseconds since the epoch.
pub open spec fn max_timestamp() -> int {
    8_210_266_876_799_999_999_999
}

/// A point in time that a `DateTime<Utc>` can hold, in nanoseconds since the
/// epoch.
pub open spec fn is_timestamp(t: int) -> bool {
    min_timestamp() <= t <= max_timestamp()
}

/// Tests `is_timestamp`.
pub fn in_datetime_range(t: i128) -> (b: bool)
    ensures
        b == is_timestamp(t as int),
{
    -8_334_601_315_200_000_000_000i128 <= t && t <= 8_210_266_876_799_999_999_999i128
}

/// `checked_sub_signed(TimeDelta::days(days))` on the time `t`: `None` where
/// the result falls before the earliest `DateTime<Utc>`. `TimeDelta::days`
/// panics on more days than fit in `i64::MAX` milliseconds, hence the bound.
pub fn checked_sub_days(t: i128, days: i64) -> (r: Option<i128>)
    requires
        is_timestamp(t as int),
        0 <= days <= 106_751_991_167,
    ensures
        r matches Some(v) ==> v == t - days * NANOS_PER_DAY && is_timestamp(v as int),
        r is None <==> !is_timestamp(t - days * NANOS_PER_DAY),
{
    let v = t - (days as i128) * NANOS_PER_DAY;
    if in_datetime_range(v) {
        Some(v)
    } else {
        None
    }
}

/// `max(x, 0)`.
pub open spec fn at_least_zero(x: int) -> int {
    if x < 0 {
        0
    } else {
        x
    }
}

/// `Ord::clamp(x, lo, hi)` for `lo <= hi`.
pub open spec fn clamp(x: int, lo: int, hi: int) -> int {
    if x < lo {
        lo
    } else if x > hi {
        hi
    } else {
        x
    }
}

/// Whole parts add up to no more than the whole of the sum.
pub proof fn lemma_div_add_le(a: int, b: int, n: int)
    requires
        a >= 0,
        b >= 0,
        n > 0,
    ensures
        a / n + b / n <= (a + b) / n,
{
    vstd::arithmetic::div_mod::lemma_fundamental_div_mod(a, n);
    vstd::arithmetic::div_mod::lemma_fundamental_div_mod(b, n);
    vstd::arithmetic::div_mod::lemma_fundamental_div_mod(a + b, n);
    assert(a / n + b / n <= (a + b) / n) by (nonlinear_arith)
        requires
            a == n * (a / n) + a % n,
            b == n * (b / n) + b % n,
            a + b == n * ((a + b) / n) + (a + b) % n,
            0 <= a % n < n,
            0 <= b % n < n,
            0 <= (a + b) % n < n,
            n > 0,
    ;
}

/// Division that rounds toward zero, as Rust's `/` on integers does.
pub open spec fn div_toward_zero(a: int, b: int) -> int
    recommends
        b > 0,
{
    if a >= 0 {
        a / b
    } else {
        -((-a) / b)
    }
}

/// `TimeDelta::num_seconds` of a span of `d` nanoseconds.
pub open spec fn whole_seconds(d: int) -> int {
    div_toward_zero(d, NANOS_PER_SEC as int)
}

/// `TimeDelta::num_minutes` of a span of `d` nanoseconds.
pub open spec fn whole_minutes(d: int) -> int {
    div_toward_zero(whole_seconds(d), 60)
}

/// A span of `d` nanoseconds holds `d / 60_000_000_000` whole minutes,
/// rounded toward zero: the count grows with the span and is never taken
/// modulo an hour.
pub proof fn lemma_whole_minutes_of_span(d: int)
    ensures
        d >= 0 ==> whole_minutes(d) == d / 60_000_000_000,
        d < 0 ==> whole_minutes(d) == -((-d) / 60_000_000_000),
        d >= 0 ==> whole_seconds(d) == d / 1_000_000_000,
{
    if d >= 0 {
        vstd::arithmetic::div_mod::lemma_div_denominator(d, 1_000_000_000, 60);
        vstd::arithmetic::div_mod::lemma_div_pos_is_pos(d, 1_000_000_000);
    } else {
        vstd::arithmetic::div_mod::lemma_div_denominator(-d, 1_000_000_000, 60);
        vstd::arithmetic::div_mod::lemma_div_pos_is_pos(-d, 1_000_000_000);
        if (-d) / 1_000_000_000 == 0 {
            assert(-((-d) / 1_000_000_000) == 0);
        }
    }
}

/// Whole seconds in the span from `earlier` to `later`, rounded toward zero.
pub fn seconds_between(later: i128, earlier: i128) -> (r: i128)
    requires
        is_timestamp(later as int),
        is_timestamp(earlier as int),
    ensures
        r as int == whole_seconds(later - earlier),
{
    let d = later - earlier;
    if d >= 0 {
        d / NANOS_PER_SEC
    } else {
        -((-d) / NANOS_PER_SEC)
    }
}

/// Whole minutes in the span from `earlier` to `later`, rounded toward zero.
pub fn minutes_between(later: i128, earlier: i128) -> (r: i128)
    requires
        is_timestamp(later as int),
        is_timestamp(earlier as int),
    ensures
        r as int == whole_minutes(later - earlier),
        later >= earlier ==> r as int == (later - earlier) / 60_000_000_000,
        later < earlier ==> r as int == -((earlier - later) / 60_000_000_000),
{
    proof {
        lemma_whole_minutes_of_span(later - earlier);
    }
    let s = seconds_between(later, earlier);
    if s >= 0 {
        s / 60
    } else {
        -((-s) / 60)
    }
}

} // verus!
