use rs_1722::ptp_phc::abi::{
    PtpClockCaps, PtpClockTime, PtpExttsEvent, PtpExttsFlags, PtpPinFunction, PTP_ENABLE_FEATURE,
    PTP_FALLING_EDGE, PTP_PEROUT_PHASE, PTP_RISING_EDGE,
};
use rs_1722::ptp_phc::clock::{
    clock_id_from_fd, external_timestamp_request, external_timestamp_request_disabled, pin_count,
    periodic_output_request_at, periodic_output_request_disabled, periodic_output_request_with_phase,
    periodic_output_times_ns,
};
use rs_1722::ptp_phc::device::{find_ptp_device, ptp_device_path, sysfs_ptp_dir};
use rs_1722::ptp_phc::{Capabilities, Edge, Error, ExternalTimestampEvent, Pin, PinFunction, PtpTime};

#[test]
fn pin_functions_round_trip_through_kernel_values() {
    for f in [
        PinFunction::NoFunction,
        PinFunction::ExternalTimestamp,
        PinFunction::PeriodicOutput,
        PinFunction::PhysicalSync,
        PinFunction::Unknown(9),
    ] {
        assert_eq!(PinFunction::from_abi(f.to_abi()), f);
    }
    assert_eq!(PinFunction::ExternalTimestamp.to_abi(), PtpPinFunction(1));
    assert_eq!(PinFunction::from_abi(PtpPinFunction(3)), PinFunction::PhysicalSync);
    // a named number written as unknown reads back under its name
    assert_eq!(PinFunction::from_abi(PinFunction::Unknown(2).to_abi()), PinFunction::PeriodicOutput);
}

#[test]
fn pins_are_described_from_kernel_records() {
    let pin = Pin::from_desc("SDP1".to_string(), 1, PtpPinFunction(2), 0);
    assert_eq!(pin.name, "SDP1");
    assert_eq!(pin.index, 1);
    assert_eq!(pin.function, PinFunction::PeriodicOutput);
    assert_eq!(pin.channel, 0);
}

#[test]
fn capabilities_summarize_the_kernel_record() {
    let caps = PtpClockCaps {
        max_adj: 62_499_999,
        n_alarm: 0,
        n_ext_ts: 2,
        n_per_out: 2,
        pps: 1,
        n_pins: 4,
        cross_timestamping: 0,
        adjust_phase: 3,
        max_phase_adj: 100,
        rsv: [0; 11],
    };
    let c = Capabilities::from(caps);
    assert_eq!(c.max_adjustment_ppb, 62_499_999);
    assert_eq!(c.external_timestamp_channels, 2);
    assert!(c.pulse_per_second);
    assert!(!c.cross_timestamping);
    assert!(c.adjust_phase);
    assert_eq!(c.programmable_pins, 4);
    assert_eq!(pin_count(&caps).unwrap(), 4);
    let negative = PtpClockCaps { n_pins: -1, ..caps };
    assert!(matches!(pin_count(&negative), Err(Error::IntegerConversion(_))));
}

#[test]
fn external_timestamp_requests_select_edges() {
    let both = external_timestamp_request(3, Edge::Both);
    assert_eq!(both.index, 3);
    assert_eq!(both.flags.bits(), PTP_ENABLE_FEATURE | PTP_RISING_EDGE | PTP_FALLING_EDGE);
    assert_eq!(
        external_timestamp_request(0, Edge::Falling).flags.bits(),
        PTP_ENABLE_FEATURE | PTP_FALLING_EDGE
    );
    assert_eq!(external_timestamp_request_disabled(1).flags, PtpExttsFlags::empty());
    assert!(both.flags.contains(PtpExttsFlags::from_bits_retain(PTP_RISING_EDGE)));
}

#[test]
fn periodic_output_requests() {
    let period = PtpTime::new(1, 0);
    let with_phase = periodic_output_request_with_phase(1, period, PtpTime::new(0, 250));
    assert_eq!(with_phase.index, 1);
    assert_eq!(with_phase.period, PtpClockTime { sec: 1, nsec: 0, reserved: 0 });
    assert_eq!(with_phase.start_or_phase, PtpClockTime { sec: 0, nsec: 250, reserved: 0 });
    assert_eq!(with_phase.flags.bits(), PTP_PEROUT_PHASE);

    let at = periodic_output_request_at(0, PtpTime::from_ns(1_000_000), 100);
    assert_eq!(at.start_or_phase, PtpClockTime { sec: 102, nsec: 0, reserved: 0 });
    assert_eq!(at.period, PtpClockTime { sec: 0, nsec: 1_000_000, reserved: 0 });
    assert_eq!(at.flags.bits(), 0);

    let off = periodic_output_request_disabled(2);
    assert_eq!(off.index, 2);
    assert_eq!(off.period, PtpClockTime::default());
}

#[test]
fn external_events_carry_their_time() {
    let event = PtpExttsEvent {
        t: PtpClockTime { sec: 5, nsec: 6, reserved: 0 },
        index: 1,
        flags: PtpExttsFlags::from_bits_retain(PTP_RISING_EDGE),
        rsv: [0; 2],
    };
    let e = ExternalTimestampEvent::from_abi(event);
    assert_eq!(e.timestamp, PtpTime::new(5, 6));
    assert_eq!(e.channel, 1);
    assert_eq!(e.flags.bits(), PTP_RISING_EDGE);
}

#[test]
fn dynamic_clock_ids_follow_the_kernel_formula() {
    assert_eq!(clock_id_from_fd(3), ((!3) << 3) | 3);
    assert_eq!(clock_id_from_fd(0), -5);
    assert_eq!(clock_id_from_fd(3), -29);
}

#[test]
fn ptp_device_entries_are_recognized() {
    assert_eq!(ptp_device_path("ptp0").as_deref(), Some("/dev/ptp0"));
    assert_eq!(ptp_device_path("ptp12").as_deref(), Some("/dev/ptp12"));
    assert_eq!(ptp_device_path("ptp").as_deref(), Some("/dev/ptp"));
    assert_eq!(ptp_device_path("ptpx"), None);
    assert_eq!(ptp_device_path("pps0"), None);
    assert_eq!(sysfs_ptp_dir("enp2s0"), "/sys/class/net/enp2s0/device/ptp");
}

#[test]
fn test_ptp_device_path_construction() {
    // An interface without a sysfs PTP directory lists no entries, so no device is found.
    assert_eq!(
        sysfs_ptp_dir("nonexistent_interface_xyz"),
        "/sys/class/net/nonexistent_interface_xyz/device/ptp"
    );
    let result = find_ptp_device(&[]);
    assert_eq!(result, None);
}

#[test]
fn the_first_ptp_entry_names_the_device() {
    let entries = vec!["uevent".to_string(), "ptp3".to_string(), "ptp1".to_string()];
    assert_eq!(find_ptp_device(&entries).as_deref(), Some("/dev/ptp3"));
    assert_eq!(find_ptp_device(&["power".to_string(), "ptpx".to_string()]), None);
}

#[test]
fn negative_periodic_output_times_are_refused() {
    let (period, phase) = periodic_output_times_ns(1_500_000_000, Some(250)).unwrap();
    assert_eq!(period, PtpTime::new(1, 500_000_000));
    assert_eq!(phase, Some(PtpTime::new(0, 250)));
    assert_eq!(periodic_output_times_ns(1_000, None).unwrap().1, None);
    assert!(matches!(periodic_output_times_ns(-1, None), Err(Error::NegativeTimestamp)));
    assert!(matches!(periodic_output_times_ns(1_000, Some(-5)), Err(Error::NegativeTimestamp)));
}
