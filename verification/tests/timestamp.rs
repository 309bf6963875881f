use rs_1722::avtp::AvtpTimestamp;
use rs_1722::ptp_phc::PtpTime;

#[test]
fn addition_wraps_like_avtp_timestamps() {
    let timestamp = AvtpTimestamp::from(u32::MAX - 1);

    assert_eq!((timestamp + 3).as_u32(), 1);
}

#[test]
fn expansion_chooses_absolute_time_near_reference() {
    let reference = PtpTime::from_ns_i128((5_i128 << 32) + 123).unwrap();
    let timestamp = AvtpTimestamp::from(456_u32);

    assert_eq!(
        timestamp.expand_near(reference),
        PtpTime::from_ns_i128((5_i128 << 32) + 456).unwrap()
    );
}

#[test]
fn expansion_picks_previous_wrap_when_closer() {
    let reference = PtpTime::from_ns_i128((5_i128 << 32) + 10).unwrap();
    let timestamp = AvtpTimestamp::from(u32::MAX - 5);

    assert_eq!(
        timestamp.expand_near(reference),
        PtpTime::from_ns_i128((4_i128 << 32) + i128::from(u32::MAX - 5)).unwrap()
    );
}

#[test]
fn expansion_picks_next_wrap_when_closer() {
    let reference = PtpTime::from_ns_i128((7_i128 << 32) + i128::from(u32::MAX - 3)).unwrap();
    let timestamp = AvtpTimestamp::from(2_u32);

    assert_eq!(
        timestamp.expand_near(reference),
        PtpTime::from_ns_i128((8_i128 << 32) + 2).unwrap()
    );
}

#[test]
fn expansion_stays_congruent_and_near() {
    let reference = PtpTime::from_ns(123_456_789_012);
    for raw in [0_u32, 1, 1 << 31, u32::MAX, 987_654_321] {
        let expanded = AvtpTimestamp::from(raw).expand_near(reference).as_nanos();
        assert_eq!(expanded.rem_euclid(1_i128 << 32), i128::from(raw));
        assert!((expanded - reference.as_nanos()).abs() <= 1_i128 << 31);
    }
}

#[test]
fn timestamp_of_ptp_time_is_nanoseconds_modulo_two_to_the_32() {
    let time = PtpTime::new(10, 5);
    let expected = (10_i128 * 1_000_000_000 + 5).rem_euclid(1_i128 << 32) as u32;
    assert_eq!(AvtpTimestamp::from(time).as_u32(), expected);
    assert_eq!(AvtpTimestamp::from_ptp_time(time).into_u32(), expected);
}

#[test]
fn conversions_keep_the_raw_value() {
    let ts = AvtpTimestamp::from_u32(0xDEAD_BEEF);
    assert_eq!(ts.as_u32(), 0xDEAD_BEEF);
    assert_eq!(u32::from(ts), 0xDEAD_BEEF);
    assert_eq!(ts.wrapping_add(0x2152_4111).as_u32(), 0);
    let mut t = AvtpTimestamp::from(7_u32);
    t += 3;
    assert_eq!(t.as_u32(), 10);
}

#[test]
fn checked_expansion_agrees_and_refuses_unrepresentable_instants() {
    let reference = PtpTime::from_ns_i128((5_i128 << 32) + 123).unwrap();
    let timestamp = AvtpTimestamp::from(456_u32);
    assert_eq!(timestamp.try_expand_near(reference), Some(timestamp.expand_near(reference)));

    let latest = PtpTime::new_unchecked(i64::MAX, 999_999_999);
    let far_ahead = AvtpTimestamp::from(latest.as_nanos().rem_euclid(1_i128 << 32) as u32).wrapping_add(1_000);
    assert_eq!(far_ahead.try_expand_near(latest), None);
}

#[test]
fn add_assign_wraps_like_addition() {
    let mut timestamp = AvtpTimestamp::from(u32::MAX);
    timestamp += 2;
    assert_eq!(timestamp.as_u32(), 1);
}

#[test]
fn durations_wrap_to_32_bits() {
    assert_eq!(AvtpTimestamp::from_nanos(5).as_u32(), 5);
    assert_eq!(AvtpTimestamp::from_nanos((3_u128 << 32) + 7).as_u32(), 7);
    assert_eq!(AvtpTimestamp::from_nanos(std::time::Duration::from_secs(5).as_nanos()).as_u32(), (5_000_000_000_u64 % (1 << 32)) as u32);
}

#[test]
fn timestamp_conversions_agree() {
    let t = AvtpTimestamp::from(u32::MAX - 1);
    assert_eq!(t, AvtpTimestamp::from_u32(u32::MAX - 1));
    assert_eq!(t + 3, t.wrapping_add(3));
    assert_eq!(t.into_u32(), u32::from(t));
    let instant = PtpTime::new(12, 345_678_901);
    let stamp = AvtpTimestamp::from(instant);
    assert_eq!(i128::from(stamp.as_u32()), instant.as_nanos().rem_euclid(1_i128 << 32));
    assert_eq!(AvtpTimestamp::from(stamp.expand_near(instant)), stamp);
}
