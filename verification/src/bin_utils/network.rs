//! Clock sources and interface checks of the command-line programs.

use vstd::prelude::*;

use crate::ptp_phc::error::Error;

verus! {

/// Resolved time source for an interface.
#[derive(Debug, Clone, PartialEq, Eq)]
pub enum ClockSource {
    /// Use the hardware PTP device at this path.
    PtpDevice(String),
    /// Use `CLOCK_REALTIME` instead of a hardware PTP clock.
    SystemTime,
}

/// The text of a clock source: the device path, or `CLOCK_REALTIME`.
pub open spec fn clock_source_text(c: ClockSource) -> Seq<char> {
    match c {
        ClockSource::PtpDevice(path) => path@,
        ClockSource::SystemTime => "CLOCK_REALTIME"@,
    }
}

impl ClockSource {
    /// The text of this clock source: the device path, or `CLOCK_REALTIME`.
    pub fn to_string(&self) -> (r: String)
        ensures
            r@ == clock_source_text(*self),
    {
        match self {
            ClockSource::PtpDevice(path) => path.as_str().to_owned(),
            ClockSource::SystemTime => "CLOCK_REALTIME".to_owned(),
        }
    }
}

/// Errors of validating an interface for streaming.
#[derive(Debug)]
pub enum ValidatedInterfaceError {
    /// The interface does not exist.
    InterfaceNotFound(String),
    /// The interface has no MAC address.
    NoMacAddress(String),
    /// The interface is not up.
    InterfaceDown(String),
    /// No PTP device found for the interface.
    NoPtpDevice(String),
    /// Opening the PTP clock failed.
    PtpOpenFailed(String, Error),
}

/// Checks what is known of an interface, in order: that it exists, that it is
/// up, and that it has a MAC address.
pub fn check_interface(name: &str, found: bool, up: bool, has_mac: bool) -> (r: Result<
    (),
    ValidatedInterfaceError,
>)
    ensures
        !found ==> (r matches Err(ValidatedInterfaceError::InterfaceNotFound(n)) && n@ == name@),
        found && !up ==> (r matches Err(ValidatedInterfaceError::InterfaceDown(n)) && n@ == name@),
        found && up && !has_mac ==> (r matches Err(ValidatedInterfaceError::NoMacAddress(n)) && n@
            == name@),
        found && up && has_mac ==> r is Ok,
{
    if !found {
        return Err(ValidatedInterfaceError::InterfaceNotFound(name.to_owned()));
    }
    if !up {
        return Err(ValidatedInterfaceError::InterfaceDown(name.to_owned()));
    }
    if !has_mac {
        return Err(ValidatedInterfaceError::NoMacAddress(name.to_owned()));
    }
    Ok(())
}

} // verus!
