//! Points in time as the scheduler stores them: a calendar date and time
//! without offset, read as UTC and held as nanoseconds since the Unix epoch.
use vstd::prelude::*;

verus! {

/// The earliest representable point, -9999-01-01 00:00:00.
pub const MIN_DATETIME_NANOS: i128 = -377_705_203_200_000_000_000i128;

/// The latest representable point, 9999-12-31 23:59:59.999999999.
pub const MAX_DATETIME_NANOS: i128 = 253_402_300_799_999_999_999i128;

pub const NANOS_PER_SECOND: i128 = 1_000_000_000i128;

/// A point in the calendar's range.
pub open spec fn valid_datetime(t: int) -> bool {
    MIN_DATETIME_NANOS <= t <= MAX_DATETIME_NANOS
}

/// `t` moved by `seconds`, held at the ends of the calendar's range.
pub open spec fn saturating_add_seconds_spec(t: int, seconds: int) -> int {
    let moved = t + seconds * NANOS_PER_SECOND;
    if moved < MIN_DATETIME_NANOS {
        MIN_DATETIME_NANOS as int
    } else if moved > MAX_DATETIME_NANOS {
        MAX_DATETIME_NANOS as int
    } else {
        moved
    }
}

/// The current UTC date and time, as `time::OffsetDateTime::now_utc` reads
/// the system clock, in nanoseconds since the epoch.
#[verifier::external_body]
pub fn now() -> (t: i128)
    ensures
        valid_datetime(t as int),
{
    time::OffsetDateTime::now_utc().unix_timestamp_nanos()
}

/// `t + seconds`, saturating at the ends of the calendar's range, as
/// `PrimitiveDateTime::saturating_add` computes it for a whole number of seconds.
pub fn saturating_add_seconds(t: i128, seconds: i64) -> (r: i128)
    requires
        valid_datetime(t as int),
    ensures
        r == saturating_add_seconds_spec(t as int, seconds as int),
        valid_datetime(r as int),
{
    assert(-9_223_372_036_854_775_808i128 * 1_000_000_000i128 <= seconds as i128 * 1_000_000_000i128
        <= 9_223_372_036_854_775_807i128 * 1_000_000_000i128) by (nonlinear_arith)
        requires
            i64::MIN <= seconds <= i64::MAX;
    let moved: i128 = t + (seconds as i128) * NANOS_PER_SECOND;
    if moved < MIN_DATETIME_NANOS {
        MIN_DATETIME_NANOS
    } else if moved > MAX_DATETIME_NANOS {
        MAX_DATETIME_NANOS
    } else {
        moved
    }
}

/// The point `delta` seconds after `now`, where a delta is given.
pub fn time_after_delta(now: i128, delta: Option<i32>) -> (r: Option<i128>)
    requires
        valid_datetime(now as int),
    ensures
        match delta {
            Some(d) => r == Some(saturating_add_seconds_spec(now as int, d as int) as i128),
            None => r is None,
        },
{
    match delta {
        Some(d) => Some(saturating_add_seconds(now, d as i64)),
        None => None,
    }
}

/// The point `delta` seconds from now, where a delta is given.
pub fn get_time_from_delta(delta: Option<i32>) -> (r: Option<i128>)
    ensures
        r is Some <==> delta is Some,
        r matches Some(t) ==> valid_datetime(t as int),
        delta matches Some(d) ==> exists|current: int| #[trigger] valid_datetime(current)
            && r == Some(saturating_add_seconds_spec(current, d as int) as i128),
{
    match delta {
        Some(_) => {
            let current = now();
            assert(valid_datetime(current as int));
            time_after_delta(current, delta)
        },
        None => None,
    }
}

/// Moving a time by whole seconds lands exactly that many seconds later
/// wherever that stays in the calendar's range, and otherwise at the end of
/// the range that it ran past; the result is always in range and never
/// moves against the sign of the delay.
pub proof fn lemma_saturating_add_seconds_exact(t: int, seconds: int)
    requires
        valid_datetime(t),
    ensures
        valid_datetime(saturating_add_seconds_spec(t, seconds)),
        valid_datetime(t + seconds * NANOS_PER_SECOND) ==>
            saturating_add_seconds_spec(t, seconds) == t + seconds * NANOS_PER_SECOND,
        t + seconds * NANOS_PER_SECOND > MAX_DATETIME_NANOS ==>
            saturating_add_seconds_spec(t, seconds) == MAX_DATETIME_NANOS,
        t + seconds * NANOS_PER_SECOND < MIN_DATETIME_NANOS ==>
            saturating_add_seconds_spec(t, seconds) == MIN_DATETIME_NANOS,
        seconds >= 0 ==> saturating_add_seconds_spec(t, seconds) >= t,
        seconds <= 0 ==> saturating_add_seconds_spec(t, seconds) <= t,
{
    assert(seconds >= 0 ==> seconds * NANOS_PER_SECOND >= 0) by (nonlinear_arith);
    assert(seconds <= 0 ==> seconds * NANOS_PER_SECOND <= 0) by (nonlinear_arith);
}

} // verus!
