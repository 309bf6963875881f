//! What the PHC device operations compute from and hand to the kernel: the
//! capability summary, captured events, and the request records of periodic
//! output and external timestamping.

use vstd::prelude::*;

use crate::ptp_phc::abi::{
    PtpClockCaps, PtpClockTime, PtpExttsEvent, PtpExttsFlags, PtpExttsRequest, PtpPeroutFlags,
    PtpPeroutRequest, PTP_ENABLE_FEATURE, PTP_FALLING_EDGE, PTP_PEROUT_PHASE, PTP_RISING_EDGE,
};
use crate::ptp_phc::error::Error;
use crate::ptp_phc::time::PtpTime;
use crate::ptp_phc::{Edge, ExternalTimestampFlags};

verus! {

/// Capabilities reported by one PTP hardware clock.
#[derive(Debug, Clone, Copy, PartialEq, Eq, Structural)]
pub struct Capabilities {
    /// Maximum frequency adjustment supported by the PHC, in parts per billion.
    pub max_adjustment_ppb: i32,
    /// Number of programmable alarm channels supported by the device.
    pub programmable_alarms: i32,
    /// Number of external timestamp capture channels available.
    pub external_timestamp_channels: i32,
    /// Number of periodic-output channels available.
    pub periodic_output_channels: i32,
    /// Whether the device supports the generic PPS enable operation.
    pub pulse_per_second: bool,
    /// Number of programmable physical pins exposed by the PHC.
    pub programmable_pins: i32,
    /// Whether precise PHC/system cross timestamping is supported.
    pub cross_timestamping: bool,
    /// Whether the PHC supports phase adjustment operations.
    pub adjust_phase: bool,
    /// Maximum supported phase adjustment, in nanoseconds.
    pub max_phase_adjustment_ns: i32,
}

/// The capability summary of a kernel capability record.
pub open spec fn capabilities_of(caps: PtpClockCaps) -> Capabilities {
    Capabilities {
        max_adjustment_ppb: caps.max_adj,
        programmable_alarms: caps.n_alarm,
        external_timestamp_channels: caps.n_ext_ts,
        periodic_output_channels: caps.n_per_out,
        pulse_per_second: caps.pps != 0,
        programmable_pins: caps.n_pins,
        cross_timestamping: caps.cross_timestamping != 0,
        adjust_phase: caps.adjust_phase != 0,
        max_phase_adjustment_ns: caps.max_phase_adj,
    }
}

impl From<PtpClockCaps> for Capabilities {
    fn from(caps: PtpClockCaps) -> (r: Self) {
        Capabilities {
            max_adjustment_ppb: caps.max_adj,
            programmable_alarms: caps.n_alarm,
            external_timestamp_channels: caps.n_ext_ts,
            periodic_output_channels: caps.n_per_out,
            pulse_per_second: caps.pps != 0,
            programmable_pins: caps.n_pins,
            cross_timestamping: caps.cross_timestamping != 0,
            adjust_phase: caps.adjust_phase != 0,
            max_phase_adjustment_ns: caps.max_phase_adj,
        }
    }
}

impl vstd::std_specs::convert::FromSpecImpl<PtpClockCaps> for Capabilities {
    open spec fn obeys_from_spec() -> bool {
        true
    }

    open spec fn from_spec(caps: PtpClockCaps) -> Self {
        capabilities_of(caps)
    }
}

/// The number of programmable pins of a device, which the kernel reports as a
/// signed count.
///
/// Fails with [`Error::IntegerConversion`] when the count is negative.
pub fn pin_count(caps: &PtpClockCaps) -> (r: Result<u32, Error>)
    ensures
        caps.n_pins >= 0 <==> r is Ok,
        r matches Ok(n) ==> n == caps.n_pins,
        r matches Err(e) ==> e is IntegerConversion,
{
    match u32::try_from(caps.n_pins) {
        Ok(n) => Ok(n),
        Err(e) => Err(Error::IntegerConversion(e)),
    }
}

/// One externally captured timestamp event read from a PHC device.
#[derive(Debug, Clone, Copy, PartialEq, Eq)]
pub struct ExternalTimestampEvent {
    /// PHC timestamp captured for the external input event.
    pub timestamp: PtpTime,
    /// External timestamp channel that produced this event.
    pub channel: u32,
    /// Kernel event flags associated with the captured edge.
    pub flags: ExternalTimestampFlags,
}

impl ExternalTimestampEvent {
    /// The event a kernel event record describes; the kernel keeps its
    /// nanoseconds below one second.
    pub fn from_abi(event: PtpExttsEvent) -> (r: Self)
        requires
            event.t.nsec < 1_000_000_000,
        ensures
            r.timestamp@ == event.t.sec * 1_000_000_000 + event.t.nsec,
            r.channel == event.index,
            r.flags == event.flags,
    {
        ExternalTimestampEvent {
            timestamp: PtpTime::from_abi(event.t),
            channel: event.index,
            flags: event.flags,
        }
    }
}

/// The all-zero kernel time record.
pub open spec fn zero_clock_time() -> PtpClockTime {
    PtpClockTime { sec: 0, nsec: 0, reserved: 0 }
}

/// Whether a kernel time record holds the given timestamp.
pub open spec fn clock_time_holds(t: PtpClockTime, time: PtpTime) -> bool {
    &&& t.sec * 1_000_000_000 + t.nsec == time@
    &&& t.nsec < 1_000_000_000
    &&& t.reserved == 0
}

/// The request that starts a periodic output with the given period, at the
/// given phase within each period.
pub fn periodic_output_request_with_phase(channel: u32, period: PtpTime, phase: PtpTime) -> (r:
    PtpPeroutRequest)
    ensures
        r.index == channel,
        clock_time_holds(r.period, period),
        clock_time_holds(r.start_or_phase, phase),
        r.flags@ == PTP_PEROUT_PHASE,
        r.on_or_rsv == zero_clock_time(),
{
    PtpPeroutRequest {
        start_or_phase: phase.into_abi(),
        period: period.into_abi(),
        index: channel,
        flags: PtpPeroutFlags::from_bits_retain(PTP_PEROUT_PHASE),
        on_or_rsv: PtpClockTime { sec: 0, nsec: 0, reserved: 0 },
    }
}

/// The request that starts a periodic output with the given period at an
/// absolute time: the whole second two seconds after `now_sec`, so that the
/// start still lies ahead when the kernel handles the request.
pub fn periodic_output_request_at(channel: u32, period: PtpTime, now_sec: i64) -> (r:
    PtpPeroutRequest)
    requires
        now_sec + 2 <= i64::MAX,
    ensures
        r.index == channel,
        clock_time_holds(r.period, period),
        r.start_or_phase == (PtpClockTime { sec: (now_sec + 2) as i64, nsec: 0, reserved: 0 }),
        r.flags@ == 0,
        r.on_or_rsv == zero_clock_time(),
{
    PtpPeroutRequest {
        start_or_phase: PtpClockTime { sec: now_sec + 2, nsec: 0, reserved: 0 },
        period: period.into_abi(),
        index: channel,
        flags: PtpPeroutFlags::empty(),
        on_or_rsv: PtpClockTime { sec: 0, nsec: 0, reserved: 0 },
    }
}

/// The period and phase of a periodic output given in nanoseconds, as clock
/// times; a negative period or phase is refused with
/// [`Error::NegativeTimestamp`].
pub fn periodic_output_times_ns(period_ns: i64, phase_ns: Option<i64>) -> (r: Result<
    (PtpTime, Option<PtpTime>),
    Error,
>)
    ensures
        r is Err <==> (period_ns < 0 || (phase_ns matches Some(p) && p < 0)),
        r matches Err(e) ==> e is NegativeTimestamp,
        r matches Ok((period, phase)) ==> period@ == period_ns && match phase_ns {
            Some(p) => phase matches Some(t) && t@ == p,
            None => phase is None,
        },
{
    if period_ns < 0 {
        return Err(Error::NegativeTimestamp);
    }
    let phase = match phase_ns {
        Some(p) => {
            if p < 0 {
                return Err(Error::NegativeTimestamp);
            }
            Some(PtpTime::from_ns(p))
        },
        None => None,
    };
    Ok((PtpTime::from_ns(period_ns), phase))
}

/// The request that stops a periodic output: every time field zero.
pub fn periodic_output_request_disabled(channel: u32) -> (r: PtpPeroutRequest)
    ensures
        r.index == channel,
        r.period == zero_clock_time(),
        r.start_or_phase == zero_clock_time(),
        r.flags@ == 0,
        r.on_or_rsv == zero_clock_time(),
{
    PtpPeroutRequest {
        start_or_phase: PtpClockTime { sec: 0, nsec: 0, reserved: 0 },
        period: PtpClockTime { sec: 0, nsec: 0, reserved: 0 },
        index: channel,
        flags: PtpPeroutFlags::empty(),
        on_or_rsv: PtpClockTime { sec: 0, nsec: 0, reserved: 0 },
    }
}

/// The flag bits that select the edges to capture.
pub open spec fn edge_bits(edge: Edge) -> u32 {
    match edge {
        Edge::Rising => PTP_RISING_EDGE,
        Edge::Falling => PTP_FALLING_EDGE,
        Edge::Both => (PTP_RISING_EDGE | PTP_FALLING_EDGE) as u32,
    }
}

/// The request that enables external timestamp capture of the given edges.
pub fn external_timestamp_request(channel: u32, edge: Edge) -> (r: PtpExttsRequest)
    ensures
        r.index == channel,
        r.flags@ == PTP_ENABLE_FEATURE | edge_bits(edge),
        r.rsv == [0u32, 0u32],
{
    let edge_flags = match edge {
        Edge::Rising => PtpExttsFlags::from_bits_retain(PTP_RISING_EDGE),
        Edge::Falling => PtpExttsFlags::from_bits_retain(PTP_FALLING_EDGE),
        Edge::Both => PtpExttsFlags::from_bits_retain(PTP_RISING_EDGE).union(
            PtpExttsFlags::from_bits_retain(PTP_FALLING_EDGE),
        ),
    };
    PtpExttsRequest {
        index: channel,
        flags: PtpExttsFlags::from_bits_retain(PTP_ENABLE_FEATURE).union(edge_flags),
        rsv: [0, 0],
    }
}

/// The request that disables external timestamp capture.
pub fn external_timestamp_request_disabled(channel: u32) -> (r: PtpExttsRequest)
    ensures
        r.index == channel,
        r.flags@ == 0,
        r.rsv == [0u32, 0u32],
{
    PtpExttsRequest { index: channel, flags: PtpExttsFlags::empty(), rsv: [0, 0] }
}

/// The dynamic clock id the kernel assigns to an open PHC file descriptor
/// (`FD_TO_CLOCKID`): the complement of the descriptor shifted left by three,
/// with the `CLOCKFD` tag `3` in the low bits.
pub fn clock_id_from_fd(fd: i32) -> (r: i32)
    ensures
        r == (!fd << 3u32) | 3i32,
        0 <= fd < 0x1000_0000 ==> r == -8 * fd - 5,
{
    let r = (!fd << 3u32) | 3i32;
    assert(0 <= fd < 0x1000_0000 ==> (!fd << 3u32) | 3i32 == -8 * fd - 5) by (bit_vector);
    r
}

} // verus!
