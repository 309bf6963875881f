//! Records of the Linux PTP clock interface (`<linux/ptp_clock.h>`), held as
//! plain values. The byte layout the kernel reads is produced where the ioctls
//! are issued; these types carry the same fields.

use vstd::prelude::*;

verus! {

/// Kernel record `struct ptp_clock_time`.
#[derive(Debug, Default, Clone, Copy, PartialEq, Eq, Structural)]
pub struct PtpClockTime {
    /// Whole seconds.
    pub sec: i64,
    /// Nanoseconds within the second.
    pub nsec: u32,
    /// Reserved, zero.
    pub reserved: u32,
}

/// Kernel record `struct ptp_clock_caps`: the capabilities of one PHC device.
#[derive(Debug, Default, Clone, Copy)]
pub struct PtpClockCaps {
    /// Maximum frequency adjustment, in parts per billion.
    pub max_adj: i32,
    /// Number of programmable alarm channels.
    pub n_alarm: i32,
    /// Number of external timestamp channels.
    pub n_ext_ts: i32,
    /// Number of periodic output channels.
    pub n_per_out: i32,
    /// Nonzero when PPS is supported.
    pub pps: i32,
    /// Number of programmable pins.
    pub n_pins: i32,
    /// Nonzero when precise cross timestamping is supported.
    pub cross_timestamping: i32,
    /// Nonzero when phase adjustment is supported.
    pub adjust_phase: i32,
    /// Maximum phase adjustment, in nanoseconds.
    pub max_phase_adj: i32,
    /// Reserved, zero.
    pub rsv: [i32; 11],
}

/// Bit of [`PtpExttsFlags`]: enable the feature (`PTP_ENABLE_FEATURE`).
pub const PTP_ENABLE_FEATURE: u32 = 1;

/// Bit of [`PtpExttsFlags`]: timestamp rising edges (`PTP_RISING_EDGE`).
pub const PTP_RISING_EDGE: u32 = 2;

/// Bit of [`PtpExttsFlags`]: timestamp falling edges (`PTP_FALLING_EDGE`).
pub const PTP_FALLING_EDGE: u32 = 4;

/// Bit of [`PtpPeroutFlags`]: a single output event (`PTP_PEROUT_ONE_SHOT`).
pub const PTP_PEROUT_ONE_SHOT: u32 = 1;

/// Bit of [`PtpPeroutFlags`]: the on-time field is meaningful (`PTP_PEROUT_DUTY_CYCLE`).
pub const PTP_PEROUT_DUTY_CYCLE: u32 = 2;

/// Bit of [`PtpPeroutFlags`]: the first time field is a phase (`PTP_PEROUT_PHASE`).
pub const PTP_PEROUT_PHASE: u32 = 4;

/// Flag word of external timestamp requests and events.
#[derive(Debug, Default, Clone, Copy, PartialEq, Eq, Structural)]
pub struct PtpExttsFlags {
    bits: u32,
}

impl View for PtpExttsFlags {
    type V = u32;

    closed spec fn view(&self) -> u32 {
        self.bits
    }
}

impl PtpExttsFlags {
    /// The empty flag word.
    pub fn empty() -> (r: Self)
        ensures
            r@ == 0,
    {
        Self { bits: 0 }
    }

    /// A flag word holding exactly the given bits, known or not.
    pub fn from_bits_retain(bits: u32) -> (r: Self)
        ensures
            r@ == bits,
    {
        Self { bits }
    }

    /// The raw bits.
    pub fn bits(&self) -> (r: u32)
        ensures
            r == self@,
    {
        self.bits
    }

    /// The bits of both flag words.
    pub fn union(self, other: Self) -> (r: Self)
        ensures
            r@ == self@ | other@,
    {
        Self { bits: self.bits | other.bits }
    }

    /// Whether every bit of `other` is set in `self`.
    pub fn contains(&self, other: Self) -> (r: bool)
        ensures
            r == (self@ & other@ == other@),
    {
        self.bits & other.bits == other.bits
    }
}

/// Kernel record `struct ptp_extts_request`: configures one external timestamp
/// channel.
#[derive(Debug, Default, Clone, Copy)]
pub struct PtpExttsRequest {
    /// Channel to configure.
    pub index: u32,
    /// Request flags; empty disables capture.
    pub flags: PtpExttsFlags,
    /// Reserved, zero.
    pub rsv: [u32; 2],
}

/// Kernel record `struct ptp_extts_event`: one captured edge.
#[derive(Debug, Default, Clone, Copy)]
pub struct PtpExttsEvent {
    /// PHC time of the edge.
    pub t: PtpClockTime,
    /// Channel that captured it.
    pub index: u32,
    /// Event flags.
    pub flags: PtpExttsFlags,
    /// Reserved.
    pub rsv: [u32; 2],
}

/// Flag word of periodic output requests.
#[derive(Debug, Default, Clone, Copy, PartialEq, Eq, Structural)]
pub struct PtpPeroutFlags {
    bits: u32,
}

impl View for PtpPeroutFlags {
    type V = u32;

    closed spec fn view(&self) -> u32 {
        self.bits
    }
}

impl PtpPeroutFlags {
    /// The empty flag word.
    pub fn empty() -> (r: Self)
        ensures
            r@ == 0,
    {
        Self { bits: 0 }
    }

    /// A flag word holding exactly the given bits, known or not.
    pub fn from_bits_retain(bits: u32) -> (r: Self)
        ensures
            r@ == bits,
    {
        Self { bits }
    }

    /// The raw bits.
    pub fn bits(&self) -> (r: u32)
        ensures
            r == self@,
    {
        self.bits
    }
}

/// Kernel record `struct ptp_perout_request`: configures one periodic output.
#[derive(Debug, Default, Clone, Copy)]
pub struct PtpPeroutRequest {
    /// Absolute start time, or a phase when [`PTP_PEROUT_PHASE`] is set.
    pub start_or_phase: PtpClockTime,
    /// Period; zero disables the channel.
    pub period: PtpClockTime,
    /// Channel to configure.
    pub index: u32,
    /// Request flags.
    pub flags: PtpPeroutFlags,
    /// On-time when [`PTP_PEROUT_DUTY_CYCLE`] is set, zero otherwise.
    pub on_or_rsv: PtpClockTime,
}

/// Kernel value `PTP_PF_NONE`: no function routed to the pin.
pub const PTP_PF_NONE: u32 = 0;

/// Kernel value `PTP_PF_EXTTS`: external timestamp input.
pub const PTP_PF_EXTTS: u32 = 1;

/// Kernel value `PTP_PF_PEROUT`: periodic output.
pub const PTP_PF_PEROUT: u32 = 2;

/// Kernel value `PTP_PF_PHYSYNC`: physical synchronization.
pub const PTP_PF_PHYSYNC: u32 = 3;

/// Kernel value of `enum ptp_pin_function`, as the raw number the driver reports.
#[derive(Debug, Default, Clone, Copy, PartialEq, Eq, Structural)]
pub struct PtpPinFunction(pub u32);

} // verus!
