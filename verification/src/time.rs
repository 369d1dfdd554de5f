//! Conversions between the native microsecond clocks and calendar or
//! duration parts.
//!
//! The native service counts realtime in microseconds since the Unix epoch
//! and monotonic time in microseconds since the start of a boot session,
//! both as unsigned 64-bit values.  The ergonomic layer exposes those as
//! calendar timestamps and durations built from whole seconds and a
//! subsecond part; the arithmetic between the two representations is done
//! here.  A duration that is negative or does not fit the signed 64-bit
//! microsecond domain is rejected with a dedicated error, never silently
//! clamped.

use crate::enums::Error;
use vstd::arithmetic::div_mod::lemma_fundamental_div_mod;
use vstd::prelude::*;

verus! {

/// The native microsecond value for a duration, given the duration's
/// microsecond view: a duration whose microsecond count overflows the
/// signed 64-bit domain has no view at all, and a negative one cannot be a
/// clock value; both are rejected with the dedicated error, never silently
/// clamped.
pub open spec fn spec_usec_from_duration(micros: Option<i64>) -> Result<u64, Error> {
    match micros {
        None => Err(Error::TimeStampOutOfRange),
        Some(t) => if t < 0 {
            Err(Error::TimeStampOutOfRange)
        } else {
            Ok(t as u64)
        },
    }
}

/// Convert a duration to the native microsecond clock.  `micros` is the
/// duration's total-microseconds view, absent when that count does not fit
/// a signed 64-bit value.
pub fn usec_from_duration(micros: Option<i64>) -> (r: Result<u64, Error>)
    ensures
        r == spec_usec_from_duration(micros),
{
    match micros {
        None => Err(Error::TimeStampOutOfRange),
        Some(t) => if t < 0 {
            Err(Error::TimeStampOutOfRange)
        } else {
            Ok(t as u64)
        },
    }
}

/// The total microseconds described by a calendar timestamp of `secs` whole
/// seconds since the epoch and `subsec_micros` leftover microseconds.
pub open spec fn spec_realtime_usec(secs: i64, subsec_micros: u32) -> int {
    secs * 1_000_000 + subsec_micros
}

/// The native microsecond value for a calendar timestamp, or the dedicated
/// error when the timestamp lies before the epoch or beyond the unsigned
/// 64-bit microsecond range.
pub open spec fn spec_usec_from_realtime(secs: i64, subsec_micros: u32) -> Result<u64, Error> {
    let total = spec_realtime_usec(secs, subsec_micros);
    if 0 <= total <= u64::MAX {
        Ok(total as u64)
    } else {
        Err(Error::TimeStampOutOfRange)
    }
}

/// Convert a calendar timestamp, given as whole seconds since the epoch and
/// leftover microseconds, to the native microsecond clock.  A leap second
/// can carry up to twice the usual subsecond microseconds.
pub fn usec_from_realtime(secs: i64, subsec_micros: u32) -> (r: Result<u64, Error>)
    requires
        subsec_micros < 2_000_000,
    ensures
        r == spec_usec_from_realtime(secs, subsec_micros),
{
    if secs < 0 {
        if secs == -1 && subsec_micros >= 1_000_000 {
            return Ok((subsec_micros - 1_000_000) as u64);
        }
        return Err(Error::TimeStampOutOfRange);
    }
    let micros_of_secs = match (secs as u64).checked_mul(1_000_000) {
        None => {
            return Err(Error::TimeStampOutOfRange);
        },
        Some(m) => m,
    };
    match micros_of_secs.checked_add(subsec_micros as u64) {
        None => Err(Error::TimeStampOutOfRange),
        Some(total) => Ok(total),
    }
}

/// Split a native realtime microsecond value into whole seconds since the
/// epoch and leftover nanoseconds, the parts from which the ergonomic layer
/// builds its calendar timestamp.
pub fn realtime_parts(usec: u64) -> (r: (i64, u32))
    ensures
        r.0 == usec as int / 1_000_000,
        r.1 == (usec as int % 1_000_000) * 1000,
        0 <= r.0,
        r.1 < 1_000_000_000,
{
    let secs_wide: u64 = usec / 1_000_000;
    assert(secs_wide <= u64::MAX as int / 1_000_000) by {
        vstd::arithmetic::div_mod::lemma_div_is_ordered(usec as int, u64::MAX as int, 1_000_000);
    }
    let rem: u64 = usec % 1_000_000;
    ((secs_wide as i64), ((rem * 1000) as u32))
}

/// Split a native monotonic microsecond value into whole seconds and
/// leftover microseconds, the parts from which the ergonomic layer builds
/// its duration.
pub fn monotonic_parts(usec: u64) -> (r: (i64, u32))
    ensures
        r.0 == usec as int / 1_000_000,
        r.1 == usec as int % 1_000_000,
        0 <= r.0,
        r.1 < 1_000_000,
{
    let secs_wide: u64 = usec / 1_000_000;
    assert(secs_wide <= u64::MAX as int / 1_000_000) by {
        vstd::arithmetic::div_mod::lemma_div_is_ordered(usec as int, u64::MAX as int, 1_000_000);
    }
    let rem: u64 = usec % 1_000_000;
    ((secs_wide as i64), (rem as u32))
}

/// Reading a monotonic clock value as a duration and seeking with that
/// duration addresses the same native microsecond value: splitting into
/// parts, recombining them into the duration's microsecond view and
/// converting back is the identity on every value the signed microsecond
/// domain can hold.
pub proof fn lemma_duration_roundtrip(usec: u64)
    requires
        usec <= i64::MAX,
    ensures
        ({
            let secs = usec as int / 1_000_000;
            let subsec_micros = usec as int % 1_000_000;
            spec_usec_from_duration(Some((secs * 1_000_000 + subsec_micros) as i64)) == Ok::<
                u64,
                Error,
            >(usec)
        }),
{
    lemma_fundamental_div_mod(usec as int, 1_000_000);
}

/// Reading the realtime clock as a calendar timestamp and seeking with that
/// timestamp addresses the same native microsecond value: splitting into
/// parts and converting the parts back is the identity.
pub proof fn lemma_realtime_roundtrip(usec: u64)
    ensures
        ({
            let secs = (usec as int / 1_000_000) as i64;
            let subsec_nanos = ((usec as int % 1_000_000) * 1000) as u32;
            spec_usec_from_realtime(secs, (subsec_nanos / 1000) as u32) == Ok::<u64, Error>(usec)
        }),
{
    lemma_fundamental_div_mod(usec as int, 1_000_000);
}

} // verus!
