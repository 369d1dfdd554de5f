use sd_journal::time::{monotonic_parts, realtime_parts, usec_from_duration, usec_from_realtime};
use sd_journal::Error;

#[test]
fn realtime_to_usec() {
    assert_eq!(usec_from_realtime(0, 0), Ok(0));
    assert_eq!(usec_from_realtime(1, 500_000), Ok(1_500_000));
    assert_eq!(usec_from_realtime(1_600_000_000, 0), Ok(1_600_000_000_000_000));
}

#[test]
fn realtime_before_epoch_is_rejected() {
    assert_eq!(usec_from_realtime(-1, 0), Err(Error::TimeStampOutOfRange));
    assert_eq!(usec_from_realtime(-2, 1_999_999), Err(Error::TimeStampOutOfRange));
}

#[test]
fn realtime_leap_second_just_before_epoch() {
    // a leap second carries up to twice the usual subsecond microseconds,
    // which can push a timestamp at second -1 back over the epoch
    assert_eq!(usec_from_realtime(-1, 1_500_000), Ok(500_000));
    assert_eq!(usec_from_realtime(-1, 999_999), Err(Error::TimeStampOutOfRange));
}

#[test]
fn realtime_beyond_the_native_domain_is_rejected() {
    assert_eq!(usec_from_realtime(i64::MAX, 0), Err(Error::TimeStampOutOfRange));
}

#[test]
fn duration_to_usec() {
    assert_eq!(usec_from_duration(Some(0)), Ok(0));
    assert_eq!(usec_from_duration(Some(2_250_000)), Ok(2_250_000));
    assert_eq!(usec_from_duration(Some(i64::MAX)), Ok(i64::MAX as u64));
}

#[test]
fn negative_or_overflowing_duration_is_rejected() {
    assert_eq!(usec_from_duration(Some(-1)), Err(Error::TimeStampOutOfRange));
    assert_eq!(usec_from_duration(None), Err(Error::TimeStampOutOfRange));
}

#[test]
fn usec_to_realtime_parts() {
    assert_eq!(realtime_parts(0), (0, 0));
    assert_eq!(realtime_parts(1_500_000), (1, 500_000_000));
    assert_eq!(realtime_parts(1_600_000_000_123_456), (1_600_000_000, 123_456_000));
}

#[test]
fn usec_to_monotonic_parts() {
    assert_eq!(monotonic_parts(0), (0, 0));
    assert_eq!(monotonic_parts(2_250_000), (2, 250_000));
}

#[test]
fn clock_conversions_roundtrip() {
    for usec in [0u64, 1, 999_999, 1_000_000, 1_500_000, 1_600_000_000_123_456] {
        let (secs, nanos) = realtime_parts(usec);
        assert_eq!(usec_from_realtime(secs, nanos / 1000), Ok(usec));
        let (dsecs, dmicros) = monotonic_parts(usec);
        assert_eq!(
            usec_from_duration(Some(dsecs * 1_000_000 + dmicros as i64)),
            Ok(usec)
        );
    }
}
