use vstd::prelude::*;

verus! {

/// `std::io::Error`, carried through unchanged as the cause of a device error.
#[verifier::external_type_specification]
#[verifier::external_body]
pub struct ExIoError(std::io::Error);

/// `nix::errno::Errno`, carried through unchanged as the cause of a failed ioctl.
#[verifier::external_type_specification]
#[verifier::external_body]
pub struct ExErrno(nix::errno::Errno);

/// Errors returned by the PHC API.
#[derive(Debug)]
pub enum Error {
    /// Opening the requested `/dev/ptpX` device failed.
    OpenDevice {
        /// Path that was being opened.
        path: String,
        /// Underlying operating-system error.
        source: std::io::Error,
    },
    /// A Linux PTP ioctl call failed.
    Ioctl {
        /// Short kernel ioctl operation name.
        operation: String,
        /// Underlying ioctl error.
        source: nix::errno::Errno,
    },
    /// Reading PHC time through `clock_gettime` failed.
    ClockGettime(std::io::Error),
    /// Reading one external timestamp event from the device failed.
    ReadExternalTimestamp(std::io::Error),
    /// A negative timestamp value was supplied where the kernel ABI requires a
    /// non-negative one.
    NegativeTimestamp,
    /// A duration did not fit into the Linux PTP timestamp representation.
    DurationTooLarge,
    /// Integer conversion failed while translating between Rust and kernel ABI types.
    IntegerConversion(core::num::TryFromIntError),
}

} // verus!
