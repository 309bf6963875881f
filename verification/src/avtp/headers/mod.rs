//! The three AVTP header layouts and their shared 12-bit prefix.

use vstd::prelude::*;

pub mod alternative;
pub mod common;
pub mod control;

pub mod stream;

pub use self::alternative::AlternativeHeader;
pub use self::common::CommonHeader;
pub use self::control::ControlHeader;

pub use self::stream::{GenericStreamData, SpecificStreamData, StreamDataError, StreamHeader};

verus! {

/// Which of the three AVTP header layouts a packet uses.
#[derive(Debug, Clone, Copy, PartialEq, Eq, Structural)]
pub enum HeaderType {
    Control,
    Stream,
    Alternative,
}

/// Another name for [`CommonHeader`].
pub type AvtpCommonHeader = CommonHeader;

/// Another name for [`StreamHeader`].
pub type AvtpStreamHeader = StreamHeader;

/// Another name for [`ControlHeader`].
pub type AvtpControlHeader = ControlHeader;

/// Another name for [`AlternativeHeader`].
pub type AvtpAlternativeHeader = AlternativeHeader;

} // verus!
