use vstd::prelude::*;

use crate::ptp_phc::abi::{PtpPinFunction, PTP_PF_EXTTS, PTP_PF_NONE, PTP_PF_PEROUT, PTP_PF_PHYSYNC};

verus! {

/// Functions a programmable PHC pin can be routed to.
#[derive(Debug, Clone, Copy, PartialEq, Eq, Structural)]
pub enum PinFunction {
    /// No function assigned.
    NoFunction,
    /// External timestamp input.
    ExternalTimestamp,
    /// Periodic output.
    PeriodicOutput,
    /// Physical synchronization pin.
    PhysicalSync,
    /// A function number reported by the driver that has no name here.
    Unknown(u32),
}

/// The kernel number of a pin function.
pub open spec fn pin_function_number(f: PinFunction) -> u32 {
    match f {
        PinFunction::NoFunction => 0,
        PinFunction::ExternalTimestamp => 1,
        PinFunction::PeriodicOutput => 2,
        PinFunction::PhysicalSync => 3,
        PinFunction::Unknown(raw) => raw,
    }
}

/// The pin function the kernel number stands for.
pub open spec fn pin_function_of_number(raw: u32) -> PinFunction {
    if raw == 0 {
        PinFunction::NoFunction
    } else if raw == 1 {
        PinFunction::ExternalTimestamp
    } else if raw == 2 {
        PinFunction::PeriodicOutput
    } else if raw == 3 {
        PinFunction::PhysicalSync
    } else {
        PinFunction::Unknown(raw)
    }
}

/// Whether a pin function is written in its named form: `Unknown` only for
/// numbers that have no name.
pub open spec fn pin_function_canonical(f: PinFunction) -> bool {
    f matches PinFunction::Unknown(raw) ==> raw > 3
}

impl PinFunction {
    /// The kernel value of this function.
    pub fn to_abi(self) -> (r: PtpPinFunction)
        ensures
            r.0 == pin_function_number(self),
    {
        match self {
            PinFunction::NoFunction => PtpPinFunction(PTP_PF_NONE),
            PinFunction::ExternalTimestamp => PtpPinFunction(PTP_PF_EXTTS),
            PinFunction::PeriodicOutput => PtpPinFunction(PTP_PF_PEROUT),
            PinFunction::PhysicalSync => PtpPinFunction(PTP_PF_PHYSYNC),
            PinFunction::Unknown(raw) => PtpPinFunction(raw),
        }
    }

    /// The function a kernel value stands for.
    pub fn from_abi(raw: PtpPinFunction) -> (r: Self)
        ensures
            r == pin_function_of_number(raw.0),
            pin_function_canonical(r),
    {
        if raw.0 == PTP_PF_NONE {
            PinFunction::NoFunction
        } else if raw.0 == PTP_PF_EXTTS {
            PinFunction::ExternalTimestamp
        } else if raw.0 == PTP_PF_PEROUT {
            PinFunction::PeriodicOutput
        } else if raw.0 == PTP_PF_PHYSYNC {
            PinFunction::PhysicalSync
        } else {
            PinFunction::Unknown(raw.0)
        }
    }
}

/// Reading a kernel value back after converting it gives the same number, and a
/// function in named form survives the trip to the kernel and back.
pub proof fn lemma_pin_function_roundtrip(raw: u32, f: PinFunction)
    ensures
        pin_function_number(pin_function_of_number(raw)) == raw,
        pin_function_canonical(f) ==> pin_function_of_number(pin_function_number(f)) == f,
{
}

/// Description of one programmable PHC pin.
#[derive(Debug, Clone, PartialEq, Eq)]
pub struct Pin {
    /// Pin name reported by the kernel or driver.
    pub name: String,
    /// Physical pin index on the PHC.
    pub index: u32,
    /// Function currently assigned to the pin.
    pub function: PinFunction,
    /// Channel number used by the assigned function.
    pub channel: u32,
}

impl Pin {
    /// Builds a pin description from the fields of the kernel's pin record.
    pub fn from_desc(name: String, index: u32, func: PtpPinFunction, chan: u32) -> (r: Self)
        ensures
            r.name@ == name@,
            r.index == index,
            r.function == pin_function_of_number(func.0),
            r.channel == chan,
    {
        Pin { name, index, function: PinFunction::from_abi(func), channel: chan }
    }
}

} // verus!
