use rs_1722::ptp::monitor::{
    should_emit_periodic, MonitorLog, MonitorState, SlaveSyncState, SnapshotOutcome,
    DEGRADED_STATUS_LOG_INTERVAL_NS,
};
use rs_1722::ptp::state::PortState;

#[test]
fn periodic_messages_wait_for_the_interval() {
    let mut last = None;
    assert!(should_emit_periodic(&mut last, 10, 100));
    assert_eq!(last, Some(100));
    assert!(!should_emit_periodic(&mut last, 10, 105));
    assert_eq!(last, Some(100));
    assert!(should_emit_periodic(&mut last, 10, 110));
    assert_eq!(last, Some(110));
    // an earlier time counts as no time passed
    assert!(!should_emit_periodic(&mut last, 10, 50));
}

#[test]
fn initial_synchronization_is_reported_once() {
    let mut state = MonitorState::new();
    let (synced, logs) = state.handle_slave_snapshot(SnapshotOutcome::Ready(PortState::Listening), false, 0);
    assert!(!synced);
    assert!(matches!(logs[0], MonitorLog::WaitingForInitialSlaveSync));
    assert!(matches!(logs[1], MonitorLog::SlaveStateChanged { previous: None, .. }));
    assert_eq!(state.slave_sync_state, SlaveSyncState::Unsynchronized);

    let (synced, logs) = state.handle_slave_snapshot(SnapshotOutcome::Ready(PortState::Slave), false, 1);
    assert!(synced);
    assert!(matches!(logs[0], MonitorLog::InitialSlaveSyncEstablished));
    assert!(matches!(
        &logs[1],
        MonitorLog::SlaveStateChanged { previous: Some(PortState::Listening), current: PortState::Slave }
    ));
    assert_eq!(state.slave_sync_state, SlaveSyncState::Synchronized);

    let (synced, logs) = state.handle_slave_snapshot(SnapshotOutcome::Ready(PortState::Slave), true, 2);
    assert!(synced);
    assert_eq!(logs.len(), 1);
    assert!(matches!(logs[0], MonitorLog::SlaveSyncOffset));
}

#[test]
fn losing_synchronization_warns_then_reminds_periodically() {
    let mut state = MonitorState::new();
    state.handle_slave_snapshot(SnapshotOutcome::Ready(PortState::Slave), false, 0);
    let (_, logs) = state.handle_slave_snapshot(SnapshotOutcome::Ready(PortState::Uncalibrated), true, 5);
    assert!(matches!(logs[0], MonitorLog::SlaveNotSynchronized));
    assert_eq!(state.last_slave_unsync_log, Some(5));
    let (_, logs) = state.handle_slave_snapshot(SnapshotOutcome::Ready(PortState::Uncalibrated), true, 6);
    assert!(logs.is_empty());
    let later = 5 + DEGRADED_STATUS_LOG_INTERVAL_NS;
    let (_, logs) = state.handle_slave_snapshot(SnapshotOutcome::Ready(PortState::Uncalibrated), true, later);
    assert!(matches!(logs[..], [MonitorLog::SlaveRemainsUnsynchronized]));
}

#[test]
fn slave_process_down_is_reported_then_rate_limited() {
    let mut state = MonitorState::new();
    let (synced, logs) = state.handle_slave_snapshot(SnapshotOutcome::ProcessExited, true, 10);
    assert!(!synced);
    assert!(matches!(logs[..], [MonitorLog::SlaveProcessExited]));
    let (_, logs) = state.handle_slave_snapshot(SnapshotOutcome::ProcessExited, true, 11);
    assert!(logs.is_empty());
    let (_, logs) =
        state.handle_slave_snapshot(SnapshotOutcome::ProcessExited, true, 10 + DEGRADED_STATUS_LOG_INTERVAL_NS);
    assert!(matches!(logs[..], [MonitorLog::SlaveProcessStillDown]));
    let (_, logs) = state.handle_slave_snapshot(SnapshotOutcome::NotReady, true, 20 + DEGRADED_STATUS_LOG_INTERVAL_NS);
    assert!(matches!(logs[..], [MonitorLog::SlaveReachableAgain, MonitorLog::SlaveNotReadyYet]));
    assert_eq!(state.last_slave_process_down_log, None);
}

#[test]
fn master_states_are_tracked() {
    let mut state = MonitorState::new();
    let logs = state.handle_master_snapshot(SnapshotOutcome::NotReady, 0);
    assert!(matches!(logs[..], [MonitorLog::MasterNotReadyYet]));
    let logs = state.handle_master_snapshot(SnapshotOutcome::Ready(PortState::Listening), 1);
    assert!(matches!(
        &logs[..],
        [MonitorLog::MasterSnapshotAvailable, MonitorLog::MasterInitialState(PortState::Listening)]
    ));
    let logs = state.handle_master_snapshot(SnapshotOutcome::Ready(PortState::Master), 2);
    assert!(matches!(
        &logs[..],
        [MonitorLog::MasterStateChanged { previous: PortState::Listening, current: PortState::Master }]
    ));
    let logs = state.handle_master_snapshot(SnapshotOutcome::Ready(PortState::Master), 3);
    assert!(logs.is_empty());
    let logs = state.handle_master_snapshot(SnapshotOutcome::NotReady, 4);
    assert!(matches!(logs[..], [MonitorLog::MasterUnavailableAfterStartup]));
    let logs = state.handle_master_snapshot(SnapshotOutcome::ProcessNotRunning, 5);
    assert!(matches!(logs[..], [MonitorLog::MasterProcessNotRunning]));
    let logs = state.handle_master_snapshot(SnapshotOutcome::Failed, 6);
    assert!(matches!(logs[..], [MonitorLog::MasterSnapshotFailed]));
    assert_eq!(state.last_master_process_down_log, None);
}
