//! The decisions of a monitor that polls a master and a slave `ptp4l`
//! instance: what it remembers between polls and which status messages each
//! poll calls for. Times are nanoseconds on a monotonic clock.

use vstd::prelude::*;

use crate::ptp::state::PortState;

verus! {

/// How often a degraded status is reported again while it lasts.
pub const DEGRADED_STATUS_LOG_INTERVAL_NS: u64 = 10_000_000_000;

/// Last observed synchronization state of the slave instance.
#[derive(Debug, Clone, Copy, PartialEq, Eq, Structural)]
pub enum SlaveSyncState {
    /// Not observed yet.
    Unknown,
    /// Observed unsynchronized.
    Unsynchronized,
    /// Observed synchronized.
    Synchronized,
}

/// What one poll of an instance produced.
#[derive(Debug)]
pub enum SnapshotOutcome {
    /// A snapshot, with the port state it reports.
    Ready(PortState),
    /// `pmc` answered, but a dataset was not published yet.
    NotReady,
    /// The managed `ptp4l` process has exited.
    ProcessExited,
    /// The managed `ptp4l` process is not running.
    ProcessNotRunning,
    /// Any other failure to collect a snapshot.
    Failed,
}

/// A status message a poll calls for.
#[derive(Debug)]
pub enum MonitorLog {
    /// The slave process answers again after being down.
    SlaveReachableAgain,
    /// A slave snapshot is available after having been pending.
    SlaveSnapshotAvailable,
    /// The slave has become synchronized while monitoring.
    SlaveNowSynchronized,
    /// The slave has become synchronized for the first time.
    InitialSlaveSyncEstablished,
    /// The slave's port state changed (from none when not observed before).
    SlaveStateChanged { previous: Option<PortState>, current: PortState },
    /// The synchronized slave's offset, reported while monitoring.
    SlaveSyncOffset,
    /// The slave lost synchronization.
    SlaveNotSynchronized,
    /// The slave is still unsynchronized (periodic).
    SlaveRemainsUnsynchronized,
    /// Waiting for the slave's first synchronization.
    WaitingForInitialSlaveSync,
    /// A slave snapshot is unavailable after synchronization was reached.
    SlaveUnavailableAfterSync,
    /// A slave snapshot is not ready yet while `ptp4l` starts.
    SlaveNotReadyYet,
    /// The slave process exited.
    SlaveProcessExited,
    /// The slave process is still down (periodic).
    SlaveProcessStillDown,
    /// The slave process is not running.
    SlaveProcessNotRunning,
    /// The slave process is still not running (periodic).
    SlaveProcessStillNotRunning,
    /// Collecting a slave snapshot failed.
    SlaveSnapshotFailed,
    /// The master process answers again after being down.
    MasterReachableAgain,
    /// A master snapshot is available after having been pending.
    MasterSnapshotAvailable,
    /// The master's port state changed.
    MasterStateChanged { previous: PortState, current: PortState },
    /// The master's port state was observed for the first time.
    MasterInitialState(PortState),
    /// A master snapshot is unavailable after startup.
    MasterUnavailableAfterStartup,
    /// A master snapshot is not ready yet while `ptp4l` starts.
    MasterNotReadyYet,
    /// A master snapshot is still unavailable (periodic).
    MasterStillUnavailable,
    /// A master snapshot is still not ready during startup (periodic).
    MasterStillNotReady,
    /// The master process exited.
    MasterProcessExited,
    /// The master process is not running.
    MasterProcessNotRunning,
    /// The master process is still down (periodic).
    MasterProcessStillDown,
    /// Collecting a master snapshot failed.
    MasterSnapshotFailed,
}

/// What the monitor remembers between polls.
#[derive(Debug)]
pub struct MonitorState {
    /// Last observed synchronization state of the slave.
    pub slave_sync_state: SlaveSyncState,
    /// Last observed slave port state.
    pub last_slave_port_state: Option<PortState>,
    /// When an "unavailable" status was last reported for the slave.
    pub last_slave_pending_log: Option<u64>,
    /// When an "unsynchronized" status was last reported for the slave.
    pub last_slave_unsync_log: Option<u64>,
    /// When a "slave process down" status was last reported.
    pub last_slave_process_down_log: Option<u64>,
    /// Last observed master port state.
    pub last_master_port_state: Option<PortState>,
    /// When an "unavailable" status was last reported for the master.
    pub last_master_pending_log: Option<u64>,
    /// When a "master process down" status was last reported.
    pub last_master_process_down_log: Option<u64>,
}

/// The time from `prev` to `now`, zero when `now` is earlier.
pub open spec fn elapsed_since(prev: u64, now: u64) -> int {
    if now >= prev {
        now - prev
    } else {
        0
    }
}

/// Whether a periodic report is due: never made, or made at least `interval`
/// ago.
pub open spec fn periodic_due(last: Option<u64>, interval: u64, now: u64) -> bool {
    match last {
        Some(prev) => elapsed_since(prev, now) >= interval,
        None => true,
    }
}

/// Reports whether a periodic message is due, and if so records `now` as the
/// time it was made.
pub fn should_emit_periodic(last_emitted: &mut Option<u64>, interval: u64, now: u64) -> (r: bool)
    ensures
        r == periodic_due(*old(last_emitted), interval, now),
        r ==> *final(last_emitted) == Some(now),
        !r ==> *final(last_emitted) == *old(last_emitted),
{
    match *last_emitted {
        Some(previous) => {
            let elapsed = if now >= previous {
                now - previous
            } else {
                0
            };
            if elapsed < interval {
                return false;
            }
        },
        None => {},
    }
    *last_emitted = Some(now);
    true
}

/// Whether an observed port state differs from the one remembered.
pub open spec fn state_changed(previous: Option<PortState>, current: PortState) -> bool {
    match previous {
        Some(p) => p@ != current@,
        None => true,
    }
}

/// The monitor state, synchronization verdict and messages after a slave
/// snapshot with the given port state; `monitoring` tells whether the initial
/// synchronization was already reached.
pub open spec fn slave_ready(s: MonitorState, current: PortState, monitoring: bool, now: u64) -> (
    MonitorState,
    bool,
    Seq<MonitorLog>,
) {
    let available = if s.last_slave_pending_log is Some {
        seq![MonitorLog::SlaveSnapshotAvailable]
    } else {
        Seq::empty()
    };
    let previous = s.last_slave_port_state;
    let changed = state_changed(previous, current);
    let change_log = if changed {
        seq![MonitorLog::SlaveStateChanged { previous, current }]
    } else {
        Seq::empty()
    };
    let port = if changed {
        Some(current)
    } else {
        previous
    };
    if current@ is Slave {
        let became = if s.slave_sync_state != SlaveSyncState::Synchronized {
            if monitoring {
                seq![MonitorLog::SlaveNowSynchronized]
            } else {
                seq![MonitorLog::InitialSlaveSyncEstablished]
            }
        } else {
            Seq::empty()
        };
        let offset = if !changed && monitoring {
            seq![MonitorLog::SlaveSyncOffset]
        } else {
            Seq::empty()
        };
        (
            MonitorState {
                slave_sync_state: SlaveSyncState::Synchronized,
                last_slave_port_state: port,
                last_slave_pending_log: None,
                last_slave_unsync_log: None,
                ..s
            },
            true,
            available + became + change_log + offset,
        )
    } else {
        let lost = monitoring && s.slave_sync_state == SlaveSyncState::Synchronized;
        let still = !lost && monitoring && periodic_due(
            s.last_slave_unsync_log,
            DEGRADED_STATUS_LOG_INTERVAL_NS,
            now,
        );
        let waiting = !monitoring && s.slave_sync_state != SlaveSyncState::Unsynchronized;
        let status = if lost {
            seq![MonitorLog::SlaveNotSynchronized]
        } else if still {
            seq![MonitorLog::SlaveRemainsUnsynchronized]
        } else if waiting {
            seq![MonitorLog::WaitingForInitialSlaveSync]
        } else {
            Seq::empty()
        };
        (
            MonitorState {
                slave_sync_state: SlaveSyncState::Unsynchronized,
                last_slave_port_state: port,
                last_slave_pending_log: None,
                last_slave_unsync_log: if lost || still {
                    Some(now)
                } else {
                    s.last_slave_unsync_log
                },
                ..s
            },
            false,
            available + status + change_log,
        )
    }
}

/// The monitor state after the slave process was found down, and the message:
/// the first report (`first`) at once, then a reminder (`again`) every
/// interval.
pub open spec fn slave_down(s: MonitorState, first: MonitorLog, again: MonitorLog, now: u64) -> (
    MonitorState,
    bool,
    Seq<MonitorLog>,
) {
    let base = MonitorState {
        last_slave_pending_log: None,
        slave_sync_state: SlaveSyncState::Unsynchronized,
        ..s
    };
    if s.last_slave_process_down_log is None {
        (MonitorState { last_slave_process_down_log: Some(now), ..base }, false, seq![first])
    } else if periodic_due(s.last_slave_process_down_log, DEGRADED_STATUS_LOG_INTERVAL_NS, now) {
        (MonitorState { last_slave_process_down_log: Some(now), ..base }, false, seq![again])
    } else {
        (base, false, Seq::empty())
    }
}

/// The monitor state, synchronization verdict and messages after one poll of
/// the slave.
pub open spec fn slave_step(s: MonitorState, outcome: SnapshotOutcome, monitoring: bool, now: u64) -> (
    MonitorState,
    bool,
    Seq<MonitorLog>,
) {
    let again = if s.last_slave_process_down_log is Some {
        seq![MonitorLog::SlaveReachableAgain]
    } else {
        Seq::empty()
    };
    let up = MonitorState { last_slave_process_down_log: None, ..s };
    match outcome {
        SnapshotOutcome::Ready(current) => {
            let (t, synced, logs) = slave_ready(up, current, monitoring, now);
            (t, synced, again + logs)
        },
        SnapshotOutcome::NotReady => {
            let pending = s.last_slave_pending_log is None;
            let status = if monitoring && s.slave_sync_state == SlaveSyncState::Synchronized
                && pending {
                seq![MonitorLog::SlaveUnavailableAfterSync]
            } else if pending {
                seq![MonitorLog::SlaveNotReadyYet]
            } else {
                Seq::empty()
            };
            (
                MonitorState {
                    last_slave_pending_log: if pending {
                        Some(now)
                    } else {
                        s.last_slave_pending_log
                    },
                    ..up
                },
                false,
                again + status,
            )
        },
        SnapshotOutcome::ProcessExited => slave_down(
            s,
            MonitorLog::SlaveProcessExited,
            MonitorLog::SlaveProcessStillDown,
            now,
        ),
        SnapshotOutcome::ProcessNotRunning => slave_down(
            s,
            MonitorLog::SlaveProcessNotRunning,
            MonitorLog::SlaveProcessStillNotRunning,
            now,
        ),
        SnapshotOutcome::Failed => (
            MonitorState {
                last_slave_process_down_log: None,
                last_slave_pending_log: None,
                ..s
            },
            false,
            seq![MonitorLog::SlaveSnapshotFailed],
        ),
    }
}

/// The monitor state and messages after the master process was found down.
pub open spec fn master_down(s: MonitorState, first: MonitorLog, now: u64) -> (
    MonitorState,
    Seq<MonitorLog>,
) {
    let base = MonitorState { last_master_pending_log: None, ..s };
    if s.last_master_process_down_log is None {
        (MonitorState { last_master_process_down_log: Some(now), ..base }, seq![first])
    } else if periodic_due(s.last_master_process_down_log, DEGRADED_STATUS_LOG_INTERVAL_NS, now) {
        (
            MonitorState { last_master_process_down_log: Some(now), ..base },
            seq![MonitorLog::MasterProcessStillDown],
        )
    } else {
        (base, Seq::empty())
    }
}

/// The monitor state and messages after one poll of the master.
pub open spec fn master_step(s: MonitorState, outcome: SnapshotOutcome, now: u64) -> (
    MonitorState,
    Seq<MonitorLog>,
) {
    let again = if s.last_master_process_down_log is Some {
        seq![MonitorLog::MasterReachableAgain]
    } else {
        Seq::empty()
    };
    match outcome {
        SnapshotOutcome::Ready(current) => {
            let available = if s.last_master_pending_log is Some {
                seq![MonitorLog::MasterSnapshotAvailable]
            } else {
                Seq::empty()
            };
            let change = match s.last_master_port_state {
                Some(p) => if p@ != current@ {
                    seq![MonitorLog::MasterStateChanged { previous: p, current }]
                } else {
                    Seq::empty()
                },
                None => seq![MonitorLog::MasterInitialState(current)],
            };
            (
                MonitorState {
                    last_master_process_down_log: None,
                    last_master_pending_log: None,
                    last_master_port_state: Some(current),
                    ..s
                },
                again + available + change,
            )
        },
        SnapshotOutcome::NotReady => {
            let up = MonitorState { last_master_process_down_log: None, ..s };
            let started = s.last_master_port_state is Some;
            if s.last_master_pending_log is None {
                (
                    MonitorState { last_master_pending_log: Some(now), ..up },
                    again + if started {
                        seq![MonitorLog::MasterUnavailableAfterStartup]
                    } else {
                        seq![MonitorLog::MasterNotReadyYet]
                    },
                )
            } else if periodic_due(s.last_master_pending_log, DEGRADED_STATUS_LOG_INTERVAL_NS, now) {
                (
                    MonitorState { last_master_pending_log: Some(now), ..up },
                    again + if started {
                        seq![MonitorLog::MasterStillUnavailable]
                    } else {
                        seq![MonitorLog::MasterStillNotReady]
                    },
                )
            } else {
                (up, again)
            }
        },
        SnapshotOutcome::ProcessExited => master_down(s, MonitorLog::MasterProcessExited, now),
        SnapshotOutcome::ProcessNotRunning => master_down(
            s,
            MonitorLog::MasterProcessNotRunning,
            now,
        ),
        SnapshotOutcome::Failed => (
            MonitorState {
                last_master_process_down_log: None,
                last_master_pending_log: None,
                ..s
            },
            seq![MonitorLog::MasterSnapshotFailed],
        ),
    }
}


/// A copy of a remembered port state.
fn copy_port_state(o: &Option<PortState>) -> (r: Option<PortState>)
    ensures
        r == *o,
{
    match o {
        Some(p) => Some(p.clone()),
        None => None,
    }
}

impl MonitorState {
    /// Nothing observed or reported yet.
    pub fn new() -> (r: Self)
        ensures
            r == (MonitorState {
                slave_sync_state: SlaveSyncState::Unknown,
                last_slave_port_state: None,
                last_slave_pending_log: None,
                last_slave_unsync_log: None,
                last_slave_process_down_log: None,
                last_master_port_state: None,
                last_master_pending_log: None,
                last_master_process_down_log: None,
            }),
    {
        MonitorState {
            slave_sync_state: SlaveSyncState::Unknown,
            last_slave_port_state: None,
            last_slave_pending_log: None,
            last_slave_unsync_log: None,
            last_slave_process_down_log: None,
            last_master_port_state: None,
            last_master_pending_log: None,
            last_master_process_down_log: None,
        }
    }

    /// Takes one poll of the slave at time `now`: returns whether the slave is
    /// synchronized and the messages to report. `monitoring` tells whether the
    /// initial synchronization was already reached.
    pub fn handle_slave_snapshot(&mut self, outcome: SnapshotOutcome, monitoring: bool, now: u64) -> (r: (
        bool,
        Vec<MonitorLog>,
    ))
        ensures
            (*final(self), r.0, r.1@) == slave_step(*old(self), outcome, monitoring, now),
    {
        let mut logs: Vec<MonitorLog> = Vec::new();
        match outcome {
            SnapshotOutcome::Ready(current) => {
                if self.last_slave_process_down_log.is_some() {
                    logs.push(MonitorLog::SlaveReachableAgain);
                }
                self.last_slave_process_down_log = None;
                if self.last_slave_pending_log.is_some() {
                    logs.push(MonitorLog::SlaveSnapshotAvailable);
                }
                self.last_slave_pending_log = None;
                let changed = match &self.last_slave_port_state {
                    Some(p) => !p.same_as(&current),
                    None => true,
                };
                if current.is_slave() {
                    if self.slave_sync_state != SlaveSyncState::Synchronized {
                        if monitoring {
                            logs.push(MonitorLog::SlaveNowSynchronized);
                        } else {
                            logs.push(MonitorLog::InitialSlaveSyncEstablished);
                        }
                    }
                    if changed {
                        let previous = copy_port_state(&self.last_slave_port_state);
                        logs.push(MonitorLog::SlaveStateChanged { previous, current: current.clone() });
                        self.last_slave_port_state = Some(current);
                    } else if monitoring {
                        logs.push(MonitorLog::SlaveSyncOffset);
                    }
                    self.slave_sync_state = SlaveSyncState::Synchronized;
                    self.last_slave_unsync_log = None;
                    (true, logs)
                } else {
                    if monitoring && self.slave_sync_state == SlaveSyncState::Synchronized {
                        logs.push(MonitorLog::SlaveNotSynchronized);
                        self.last_slave_unsync_log = Some(now);
                    } else if monitoring && should_emit_periodic(
                        &mut self.last_slave_unsync_log,
                        DEGRADED_STATUS_LOG_INTERVAL_NS,
                        now,
                    ) {
                        logs.push(MonitorLog::SlaveRemainsUnsynchronized);
                    } else if !monitoring && self.slave_sync_state
                        != SlaveSyncState::Unsynchronized {
                        logs.push(MonitorLog::WaitingForInitialSlaveSync);
                    }
                    if changed {
                        let previous = copy_port_state(&self.last_slave_port_state);
                        logs.push(MonitorLog::SlaveStateChanged { previous, current: current.clone() });
                        self.last_slave_port_state = Some(current);
                    }
                    self.slave_sync_state = SlaveSyncState::Unsynchronized;
                    (false, logs)
                }
            },
            SnapshotOutcome::NotReady => {
                if self.last_slave_process_down_log.is_some() {
                    logs.push(MonitorLog::SlaveReachableAgain);
                }
                self.last_slave_process_down_log = None;
                if monitoring && self.slave_sync_state == SlaveSyncState::Synchronized
                    && self.last_slave_pending_log.is_none() {
                    logs.push(MonitorLog::SlaveUnavailableAfterSync);
                } else if self.last_slave_pending_log.is_none() {
                    logs.push(MonitorLog::SlaveNotReadyYet);
                }
                if self.last_slave_pending_log.is_none() {
                    self.last_slave_pending_log = Some(now);
                }
                (false, logs)
            },
            SnapshotOutcome::ProcessExited => {
                self.slave_down(MonitorLog::SlaveProcessExited, MonitorLog::SlaveProcessStillDown, now)
            },
            SnapshotOutcome::ProcessNotRunning => {
                self.slave_down(
                    MonitorLog::SlaveProcessNotRunning,
                    MonitorLog::SlaveProcessStillNotRunning,
                    now,
                )
            },
            SnapshotOutcome::Failed => {
                self.last_slave_process_down_log = None;
                self.last_slave_pending_log = None;
                logs.push(MonitorLog::SlaveSnapshotFailed);
                (false, logs)
            },
        }
    }

    /// Takes a poll that found the slave process down.
    fn slave_down(&mut self, first: MonitorLog, again: MonitorLog, now: u64) -> (r: (bool, Vec<MonitorLog>))
        ensures
            (*final(self), r.0, r.1@) == slave_down(*old(self), first, again, now),
    {
        let mut logs: Vec<MonitorLog> = Vec::new();
        self.last_slave_pending_log = None;
        self.slave_sync_state = SlaveSyncState::Unsynchronized;
        if self.last_slave_process_down_log.is_none() {
            logs.push(first);
            self.last_slave_process_down_log = Some(now);
        } else if should_emit_periodic(
            &mut self.last_slave_process_down_log,
            DEGRADED_STATUS_LOG_INTERVAL_NS,
            now,
        ) {
            logs.push(again);
        }
        (false, logs)
    }

    /// Takes one poll of the master at time `now`, returning the messages to
    /// report.
    pub fn handle_master_snapshot(&mut self, outcome: SnapshotOutcome, now: u64) -> (r: Vec<
        MonitorLog,
    >)
        ensures
            (*final(self), r@) == master_step(*old(self), outcome, now),
    {
        let mut logs: Vec<MonitorLog> = Vec::new();
        match outcome {
            SnapshotOutcome::Ready(current) => {
                if self.last_master_process_down_log.is_some() {
                    logs.push(MonitorLog::MasterReachableAgain);
                }
                self.last_master_process_down_log = None;
                if self.last_master_pending_log.is_some() {
                    logs.push(MonitorLog::MasterSnapshotAvailable);
                }
                self.last_master_pending_log = None;
                match &self.last_master_port_state {
                    Some(previous) => {
                        if !previous.same_as(&current) {
                            logs.push(
                                MonitorLog::MasterStateChanged {
                                    previous: previous.clone(),
                                    current: current.clone(),
                                },
                            );
                        }
                    },
                    None => {
                        logs.push(MonitorLog::MasterInitialState(current.clone()));
                    },
                }
                self.last_master_port_state = Some(current);
                logs
            },
            SnapshotOutcome::NotReady => {
                if self.last_master_process_down_log.is_some() {
                    logs.push(MonitorLog::MasterReachableAgain);
                }
                self.last_master_process_down_log = None;
                if self.last_master_pending_log.is_none() {
                    if self.last_master_port_state.is_some() {
                        logs.push(MonitorLog::MasterUnavailableAfterStartup);
                    } else {
                        logs.push(MonitorLog::MasterNotReadyYet);
                    }
                    self.last_master_pending_log = Some(now);
                } else if should_emit_periodic(
                    &mut self.last_master_pending_log,
                    DEGRADED_STATUS_LOG_INTERVAL_NS,
                    now,
                ) {
                    if self.last_master_port_state.is_some() {
                        logs.push(MonitorLog::MasterStillUnavailable);
                    } else {
                        logs.push(MonitorLog::MasterStillNotReady);
                    }
                }
                logs
            },
            SnapshotOutcome::ProcessExited => self.master_down(MonitorLog::MasterProcessExited, now),
            SnapshotOutcome::ProcessNotRunning => self.master_down(
                MonitorLog::MasterProcessNotRunning,
                now,
            ),
            SnapshotOutcome::Failed => {
                self.last_master_process_down_log = None;
                self.last_master_pending_log = None;
                logs.push(MonitorLog::MasterSnapshotFailed);
                logs
            },
        }
    }

    /// Takes a poll that found the master process down.
    fn master_down(&mut self, first: MonitorLog, now: u64) -> (r: Vec<MonitorLog>)
        ensures
            (*final(self), r@) == master_down(*old(self), first, now),
    {
        let mut logs: Vec<MonitorLog> = Vec::new();
        self.last_master_pending_log = None;
        if self.last_master_process_down_log.is_none() {
            logs.push(first);
            self.last_master_process_down_log = Some(now);
        } else if should_emit_periodic(
            &mut self.last_master_process_down_log,
            DEGRADED_STATUS_LOG_INTERVAL_NS,
            now,
        ) {
            logs.push(MonitorLog::MasterProcessStillDown);
        }
        logs
    }
}

} // verus!
