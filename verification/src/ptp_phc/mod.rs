//! Time values, kernel ABI records and request descriptions for Linux PTP
//! hardware clocks.

pub mod abi;
pub mod clock;
pub mod device;
pub mod error;
pub mod pin;
pub mod time;

use vstd::prelude::*;

pub use self::clock::{Capabilities, ExternalTimestampEvent};
pub use self::error::Error;
pub use self::pin::{Pin, PinFunction};
pub use self::time::PtpTime;

verus! {

/// Flags reported for external timestamp requests and events.
pub type ExternalTimestampFlags = crate::ptp_phc::abi::PtpExttsFlags;

/// Which edges an external timestamp channel captures.
#[derive(Debug, Clone, Copy, PartialEq, Eq, Structural)]
pub enum Edge {
    /// Timestamp rising edges.
    Rising,
    /// Timestamp falling edges.
    Falling,
    /// Timestamp both rising and falling edges.
    Both,
}

} // verus!
