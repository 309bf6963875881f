use rs_1722::ptp::state::{
    parse_blocks, to_map, Dataset, FieldParseError, PortDataSet, PortState, SnapshotAssembly,
    SnapshotParseError,
};

const PMC_OUTPUT: &str = "sending: GET TIME_STATUS_NP
\t507400.fffe.fd2bf9-1 seq 0 RESPONSE MANAGEMENT TIME_STATUS_NP
\t\tmaster_offset              -12
\t\tingress_time               1700000000000000000
\t\tcumulativeScaledRateOffset +0.000000000
\t\tgmPresent                  true
\t\tgmIdentity                 507400.fffe.fd2bf9
sending: GET PORT_DATA_SET
\t507400.fffe.fd2bf9-1 seq 1 RESPONSE MANAGEMENT PORT_DATA_SET
\t\tportIdentity            507400.fffe.fd2bf9-1
\t\tportState               SLAVE
\t\tlogMinDelayReqInterval  0
\t\tpeerMeanPathDelay       0
\t\tlogAnnounceInterval     1
\t\tannounceReceiptTimeout  3
\t\tlogSyncInterval         0
\t\tdelayMechanism          1
\t\tlogMinPdelayReqInterval 0
\t\tversionNumber           2

sending: GET CURRENT_DATA_SET
\t507400.fffe.fd2bf9-1 seq 2 RESPONSE MANAGEMENT CURRENT_DATA_SET
\t\tstepsRemoved     1
\t\toffsetFromMaster -12.0
\t\tmeanPathDelay    350.0
";

fn lines(block: &[&str]) -> Vec<String> {
    block.iter().map(|l| l.to_string()).collect()
}

#[test]
fn pmc_output_splits_into_dataset_blocks() {
    let blocks = parse_blocks(PMC_OUTPUT);
    let kinds: Vec<&str> = blocks.iter().map(|b| b.kind.as_str()).collect();
    assert_eq!(kinds, vec!["TIME_STATUS_NP", "PORT_DATA_SET", "CURRENT_DATA_SET"]);
    assert_eq!(blocks[0].lines.len(), 5);
    assert_eq!(blocks[0].lines[0], "master_offset              -12");
    assert_eq!(blocks[1].lines.len(), 10);
    assert_eq!(blocks[2].lines[2], "meanPathDelay    350.0");
}

#[test]
fn lines_before_any_block_are_ignored() {
    let blocks = parse_blocks("noise\r\n\r\n  x RESPONSE MANAGEMENT ABC\r\n  a 1\r\n");
    assert_eq!(blocks.len(), 1);
    assert_eq!(blocks[0].kind, "ABC");
    assert_eq!(blocks[0].lines, vec!["a 1".to_string()]);
    assert!(parse_blocks("").is_empty());
}

#[test]
fn port_data_set_block_parses() {
    let blocks = parse_blocks(PMC_OUTPUT);
    let port = PortDataSet::parse_block(&blocks[1].lines).unwrap();
    assert_eq!(port.port_identity, "507400.fffe.fd2bf9-1");
    assert_eq!(port.port_state, PortState::Slave);
    assert_eq!(port.log_announce_interval, 1);
    assert_eq!(port.announce_receipt_timeout, 3);
    assert_eq!(port.delay_mechanism, 1);
    assert_eq!(port.version_number, 2);
}

#[test]
fn missing_and_invalid_fields_are_reported_in_order() {
    let missing = lines(&["portIdentity abc", "portState MASTER"]);
    assert!(matches!(
        PortDataSet::parse_block(&missing),
        Err(FieldParseError::MissingField("logMinDelayReqInterval"))
    ));
    let invalid = lines(&[
        "portIdentity abc",
        "portState MASTER",
        "logMinDelayReqInterval 200",
    ]);
    assert!(matches!(
        PortDataSet::parse_block(&invalid),
        Err(FieldParseError::InvalidField("logMinDelayReqInterval"))
    ));
    assert!(matches!(
        PortDataSet::parse_block(&[]),
        Err(FieldParseError::MissingField("portIdentity"))
    ));
}

#[test]
fn later_entries_win_and_values_are_trimmed() {
    let map = to_map(&lines(&["a   1  ", "b\t2", "a 3", "novalue"]));
    assert_eq!(map.get("a").as_deref(), Some("3"));
    assert_eq!(map.get("b").as_deref(), Some("2"));
    assert_eq!(map.get("novalue"), None);
}

#[test]
fn port_states_parse() {
    assert_eq!(PortState::parse("LISTENING"), PortState::Listening);
    assert_eq!(PortState::parse("PRE_MASTER"), PortState::PreMaster);
    assert_eq!(PortState::parse("UNCALIBRATED"), PortState::Uncalibrated);
    assert_eq!(PortState::parse("slave"), PortState::Unknown("slave".to_string()));
    assert!(PortState::parse("SLAVE").is_slave());
    assert!(PortState::parse("MASTER").is_master());
    assert!(PortState::Unknown("x".into()).same_as(&PortState::Unknown("x".into())));
    assert!(!PortState::Faulty.same_as(&PortState::Disabled));
}

#[test]
fn snapshot_assembly_checks_duplicates_and_missing_datasets() {
    let mut assembly = SnapshotAssembly::new();
    assert_eq!(assembly.on_block("TIME_STATUS_NP").unwrap(), Some(Dataset::TimeStatusNp));
    assert_eq!(assembly.on_block("OTHER").unwrap(), None);
    assert!(matches!(
        assembly.on_block("TIME_STATUS_NP"),
        Err(SnapshotParseError::DuplicateDataset("TIME_STATUS_NP"))
    ));
    assert!(matches!(assembly.finish(), Err(SnapshotParseError::MissingDataset("PORT_DATA_SET"))));
    assert_eq!(assembly.on_block("PORT_DATA_SET").unwrap(), Some(Dataset::PortDataSet));
    assert!(matches!(
        assembly.finish(),
        Err(SnapshotParseError::MissingDataset("CURRENT_DATA_SET"))
    ));
    assert_eq!(assembly.on_block("CURRENT_DATA_SET").unwrap(), Some(Dataset::CurrentDataSet));
    assert!(assembly.finish().is_ok());
    assert!(matches!(
        SnapshotAssembly::new().finish(),
        Err(SnapshotParseError::MissingDataset("TIME_STATUS_NP"))
    ));
}

#[test]
fn dataset_errors_name_the_dataset() {
    match Dataset::PortDataSet.parse_error(FieldParseError::InvalidField("x")) {
        SnapshotParseError::DatasetError(e) => {
            assert_eq!(e.dataset, "PORT_DATA_SET");
            assert!(matches!(e.field_err, FieldParseError::InvalidField("x")));
        }
        other => panic!("unexpected: {other:?}"),
    }
    assert_eq!(Dataset::from_kind("CURRENT_DATA_SET"), Some(Dataset::CurrentDataSet));
    assert_eq!(Dataset::TimeStatusNp.name(), "TIME_STATUS_NP");
}

#[test]
fn fields_split_at_any_unicode_whitespace() {
    let map = to_map(&lines(&["x\u{00A0}1", "y\u{3000} 2 ", "z\u{200B}3"]));
    assert_eq!(map.get("x").as_deref(), Some("1"));
    assert_eq!(map.get("y").as_deref(), Some("2"));
    // a zero-width space is not whitespace, so the line has no value
    assert_eq!(map.get("z"), None);
    assert_eq!(map.get("z\u{200B}3"), None);
}
