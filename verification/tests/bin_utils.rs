use rs_1722::bin_utils::network::check_interface;
use rs_1722::bin_utils::{ClockSource, ValidatedInterfaceError};

#[test]
fn clock_sources_have_text() {
    assert_eq!(ClockSource::PtpDevice("/dev/ptp1".to_string()).to_string(), "/dev/ptp1");
    assert_eq!(ClockSource::SystemTime.to_string(), "CLOCK_REALTIME");
}

#[test]
fn interface_checks_run_in_order() {
    assert!(matches!(
        check_interface("eth9", false, false, false),
        Err(ValidatedInterfaceError::InterfaceNotFound(n)) if n == "eth9"
    ));
    assert!(matches!(
        check_interface("eth9", true, false, false),
        Err(ValidatedInterfaceError::InterfaceDown(n)) if n == "eth9"
    ));
    assert!(matches!(
        check_interface("eth9", true, true, false),
        Err(ValidatedInterfaceError::NoMacAddress(n)) if n == "eth9"
    ));
    assert!(check_interface("eth9", true, true, true).is_ok());
}
