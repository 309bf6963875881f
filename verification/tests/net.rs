use rs_1722::net::{MacAddress, MacParseError, NetworkInterface};

#[test]
fn mac_address_parses_colon_separated_hex() {
    let mac: MacAddress = "00:1b:21:ED:39:3e".parse().unwrap();
    assert_eq!(mac, MacAddress([0x00, 0x1b, 0x21, 0xed, 0x39, 0x3e]));
    assert_eq!(MacAddress::parse("+1:2:3:4:5:6").unwrap(), MacAddress([1, 2, 3, 4, 5, 6]));
}

#[test]
fn mac_address_with_too_few_or_many_parts_is_invalid_format() {
    assert_eq!(MacAddress::parse("00:11:22:33:44"), Err(MacParseError::InvalidFormat));
    assert_eq!(MacAddress::parse("00:11:22:33:44:55:66"), Err(MacParseError::InvalidFormat));
    // the empty text is one empty part, which is no hexadecimal byte
    assert!(matches!(MacAddress::parse(""), Err(MacParseError::InvalidHex(_))));
}

#[test]
fn mac_address_with_bad_octet_is_invalid_hex() {
    assert!(matches!(MacAddress::parse("00:11:zz:33:44:55"), Err(MacParseError::InvalidHex(_))));
    assert!(matches!(MacAddress::parse("00:11:100:33:44:55"), Err(MacParseError::InvalidHex(_))));
    assert!(matches!(MacAddress::parse("00::22:33:44:55"), Err(MacParseError::InvalidHex(_))));
    // the first problem in order decides: a bad second octet before a missing part
    assert!(matches!(MacAddress::parse("00:g"), Err(MacParseError::InvalidHex(_))));
}

#[test]
fn mac_address_text_round_trips() {
    let mac = MacAddress([0xde, 0xad, 0x0b, 0xef, 0x00, 0x7f]);
    let text = mac.to_string();
    assert_eq!(text, "de:ad:0b:ef:00:7f");
    assert_eq!(MacAddress::parse(&text).unwrap(), mac);
}

#[test]
fn mac_addresses_compare_by_bytes() {
    let a = MacAddress([1, 2, 3, 4, 5, 6]);
    assert!(a.same_as(&MacAddress([1, 2, 3, 4, 5, 6])));
    assert!(!a.same_as(&MacAddress([1, 2, 3, 4, 5, 7])));
}

#[test]
fn interface_exists_only_when_present() {
    assert!(NetworkInterface::new("eth0".to_string(), false).is_none());
    let iface = NetworkInterface::new("eth0".to_string(), true).unwrap();
    assert_eq!(iface.name(), "eth0");
    assert_eq!(iface.sysfs_path(), "/sys/class/net/eth0");
    assert_eq!(iface.to_string(), "eth0");
    assert_eq!(iface.into_name(), "eth0");
}

#[test]
fn absolute_interface_name_replaces_the_sysfs_directory() {
    let iface = NetworkInterface::new("/weird".to_string(), true).unwrap();
    assert_eq!(iface.sysfs_path(), "/weird");
}

#[test]
fn interface_mac_address_is_read_from_the_trimmed_sysfs_text() {
    let iface = NetworkInterface::new("eth0".to_string(), true).unwrap();
    assert_eq!(
        iface.mac_address("0a:0b:0c:0d:0e:ff\n"),
        Ok(MacAddress([0x0a, 0x0b, 0x0c, 0x0d, 0x0e, 0xff]))
    );
    assert_eq!(iface.mac_address("  00:11:22\n"), Err(MacParseError::InvalidFormat));
    assert!(matches!(iface.mac_address("00:11:22:33:44:xx"), Err(MacParseError::InvalidHex(_))));
}
