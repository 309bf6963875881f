use rs_1722::avtp::synchronizer::{i128_nanos_to_duration, MonotonicElapsed, DURATION_MAX_NANOS};
use rs_1722::avtp::ClockError;
use rs_1722::ptp_phc::{Error, PtpTime};

#[test]
fn new_carries_whole_seconds_out_of_nanoseconds() {
    let t = PtpTime::new(3, 2_500_000_001);
    assert_eq!(t.seconds(), 5);
    assert_eq!(t.subsec_nanos(), 500_000_001);
    assert_eq!(t.as_nanos(), 5_500_000_001);
}

#[test]
fn from_ns_floors_negative_values() {
    let t = PtpTime::from_ns(-1);
    assert_eq!(t.seconds(), -1);
    assert_eq!(t.subsec_nanos(), 999_999_999);
    assert_eq!(t.as_nanos(), -1);
}

#[test]
fn from_ns_i128_refuses_out_of_range() {
    assert!(PtpTime::from_ns_i128(i128::from(i64::MAX) * 1_000_000_000 + 999_999_999).is_some());
    assert!(PtpTime::from_ns_i128(i128::from(i64::MAX) * 1_000_000_000 + 1_000_000_000).is_none());
    assert!(PtpTime::from_ns_i128(i128::from(i64::MIN) * 1_000_000_000).is_some());
    assert!(PtpTime::from_ns_i128(i128::from(i64::MIN) * 1_000_000_000 - 1).is_none());
}

#[test]
fn text_has_nine_nanosecond_digits() {
    assert_eq!(PtpTime::new(12, 345).to_string(), "12.000000345");
    assert_eq!(PtpTime::from_ns(-1).to_string(), "-1.999999999");
    assert_eq!(PtpTime::new(0, 0).to_string(), "0.000000000");
    assert_eq!(
        PtpTime::new_unchecked(i64::MIN, 1).to_string(),
        "-9223372036854775808.000000001"
    );
}

#[test]
fn abi_record_round_trips() {
    let t = PtpTime::new(42, 7);
    let abi = t.into_abi();
    assert_eq!(abi.sec, 42);
    assert_eq!(abi.nsec, 7);
    assert_eq!(abi.reserved, 0);
    assert_eq!(PtpTime::from_abi(abi), t);
}

#[test]
fn durations_beyond_i64_seconds_are_too_large() {
    let t = PtpTime::try_from_duration(5, 6).unwrap();
    assert_eq!(t.as_nanos(), 5_000_000_006);
    assert!(matches!(
        PtpTime::try_from_duration(u64::MAX, 0),
        Err(Error::DurationTooLarge)
    ));
    assert!(PtpTime::try_from_duration(i64::MAX as u64, 999_999_999).is_ok());
}

#[test]
fn nanosecond_counts_convert_to_durations() {
    assert_eq!(i128_nanos_to_duration(1_500_000_000).unwrap(), 1_500_000_000);
    assert!(matches!(i128_nanos_to_duration(-5), Err(ClockError::NegativeElapsed(-5))));
    assert_eq!(i128_nanos_to_duration(DURATION_MAX_NANOS as i128).unwrap(), DURATION_MAX_NANOS);
    assert!(matches!(
        i128_nanos_to_duration(DURATION_MAX_NANOS as i128 + 1),
        Err(ClockError::DurationOverflow)
    ));
}

#[test]
fn elapsed_is_strictly_increasing() {
    let start = PtpTime::new(100, 0);
    let mut clock = MonotonicElapsed::new(start);
    assert_eq!(clock.compute_elapsed(1_000).unwrap(), 1_000);
    // the local estimate went backwards: one nanosecond past the last result
    assert_eq!(clock.compute_elapsed(500).unwrap(), 1_001);
    clock.resync(PtpTime::new(101, 0), -20);
    assert_eq!(clock.compute_elapsed(0).unwrap(), 999_999_980);
    assert_eq!(clock.phase_offset_ns(), -20);
    assert_eq!(clock.last_ptp_time(), PtpTime::new(101, 0));
}

#[test]
fn elapsed_before_the_first_reading_is_an_error() {
    let mut clock = MonotonicElapsed::new(PtpTime::new(100, 0));
    clock.resync(PtpTime::new(99, 0), 0);
    assert!(matches!(
        clock.compute_elapsed(10),
        Err(ClockError::NegativeElapsed(-999_999_990))
    ));
    // nothing changed: the next result is measured from zero
    assert_eq!(clock.compute_elapsed(1_000_000_000).unwrap(), 1);
}

#[test]
fn elapsed_overflowing_i128_is_an_error() {
    let mut clock = MonotonicElapsed::new(PtpTime::new(0, 0));
    clock.resync(PtpTime::new(1, 0), 1);
    assert!(matches!(clock.compute_elapsed(i128::MAX), Err(ClockError::DurationOverflow)));
}
