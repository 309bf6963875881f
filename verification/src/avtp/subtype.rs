use vstd::prelude::*;

use crate::avtp::headers::HeaderType;

verus! {

/// High-level packetization behavior for AVTPDUs over UDP: a time-ordered stream
/// (`Continuous`) or discrete control/data units (`Discrete`).
#[derive(Debug, Clone, Copy, PartialEq, Eq, Structural)]
pub enum EncapsulationStyle {
    Continuous,
    Discrete,
}

/// A subtype byte that names no known AVTP format.
#[derive(Debug, Clone, Copy, PartialEq, Eq, Structural)]
pub struct UnknownSubtype(pub u8);

/// A subtype that does not belong to the header layout it was used with.
#[derive(Debug, Clone, Copy, PartialEq, Eq, Structural)]
pub struct IncompatibleSubtype {
    pub subtype: Subtype,
    pub header_type: HeaderType,
}

/// AVTP subtype byte identifying the payload/control format.
#[allow(non_camel_case_types)]
#[derive(Debug, Clone, Copy, PartialEq, Eq, Structural)]
pub enum Subtype {
    /// IEC 61883/IIDC format
    IEC_61883_IIDC,
    /// MMA streams
    MMA_STREAM,
    /// AVTP Audio Format
    AAF,
    /// Compressed Video Format
    CVF,
    /// Clock Reference Format
    CRF,
    /// Time-Synchronous Control Format
    TSCF,
    /// SDI Video Format
    SVF,
    /// Raw Video Format
    RVF,
    /// AES Encrypted Format Continuous
    AEF_CONTINUOUS,
    /// Vendor Specific Format Stream
    VSF_STREAM,
    /// Experimental Format Stream
    EF_STREAM,
    /// Non-Time-Synchronous Control Format
    NTSCF,
    /// ECC Signed Control Format
    ESCF,
    /// ECC Encrypted Control Format
    EECF,
    /// AES Encrypted Format Discrete
    AEF_DISCRETE,
    /// AVDECC Discovery Protocol
    ADP,
    /// AVDECC Enumeration and Control Protocol
    AECP,
    /// AVDECC Connection Management Protocol
    ACMP,
    /// MAAP Protocol
    MAAP,
    /// Experimental Format Control
    EF_CONTROL,
}

/// The wire value of each subtype.
pub open spec fn subtype_byte(s: Subtype) -> u8 {
    match s {
        Subtype::IEC_61883_IIDC => 0x00,
        Subtype::MMA_STREAM => 0x01,
        Subtype::AAF => 0x02,
        Subtype::CVF => 0x03,
        Subtype::CRF => 0x04,
        Subtype::TSCF => 0x05,
        Subtype::SVF => 0x06,
        Subtype::RVF => 0x07,
        Subtype::AEF_CONTINUOUS => 0x6E,
        Subtype::VSF_STREAM => 0x6F,
        Subtype::EF_STREAM => 0x7F,
        Subtype::NTSCF => 0x82,
        Subtype::ESCF => 0xEC,
        Subtype::EECF => 0xED,
        Subtype::AEF_DISCRETE => 0xEE,
        Subtype::ADP => 0xFA,
        Subtype::AECP => 0xFB,
        Subtype::ACMP => 0xFC,
        Subtype::MAAP => 0xFD,
        Subtype::EF_CONTROL => 0xFF,
    }
}

/// The subtype a wire byte names, if any.
pub open spec fn subtype_from_byte(b: u8) -> Option<Subtype> {
    if b == 0x00 {
        Some(Subtype::IEC_61883_IIDC)
    } else if b == 0x01 {
        Some(Subtype::MMA_STREAM)
    } else if b == 0x02 {
        Some(Subtype::AAF)
    } else if b == 0x03 {
        Some(Subtype::CVF)
    } else if b == 0x04 {
        Some(Subtype::CRF)
    } else if b == 0x05 {
        Some(Subtype::TSCF)
    } else if b == 0x06 {
        Some(Subtype::SVF)
    } else if b == 0x07 {
        Some(Subtype::RVF)
    } else if b == 0x6E {
        Some(Subtype::AEF_CONTINUOUS)
    } else if b == 0x6F {
        Some(Subtype::VSF_STREAM)
    } else if b == 0x7F {
        Some(Subtype::EF_STREAM)
    } else if b == 0x82 {
        Some(Subtype::NTSCF)
    } else if b == 0xEC {
        Some(Subtype::ESCF)
    } else if b == 0xED {
        Some(Subtype::EECF)
    } else if b == 0xEE {
        Some(Subtype::AEF_DISCRETE)
    } else if b == 0xFA {
        Some(Subtype::ADP)
    } else if b == 0xFB {
        Some(Subtype::AECP)
    } else if b == 0xFC {
        Some(Subtype::ACMP)
    } else if b == 0xFD {
        Some(Subtype::MAAP)
    } else if b == 0xFF {
        Some(Subtype::EF_CONTROL)
    } else {
        None
    }
}

/// The header layout used by each subtype.
pub open spec fn header_type_of(s: Subtype) -> HeaderType {
    match s {
        Subtype::CRF | Subtype::AEF_CONTINUOUS | Subtype::NTSCF | Subtype::ESCF | Subtype::EECF
        | Subtype::AEF_DISCRETE => HeaderType::Alternative,
        Subtype::ADP | Subtype::AECP | Subtype::ACMP | Subtype::MAAP | Subtype::EF_CONTROL => {
            HeaderType::Control
        },
        _ => HeaderType::Stream,
    }
}

/// The encapsulation style of each subtype.
pub open spec fn encapsulation_style_of(s: Subtype) -> EncapsulationStyle {
    match s {
        Subtype::NTSCF | Subtype::ESCF | Subtype::EECF | Subtype::AEF_DISCRETE | Subtype::ADP
        | Subtype::AECP | Subtype::ACMP | Subtype::MAAP | Subtype::EF_CONTROL => {
            EncapsulationStyle::Discrete
        },
        _ => EncapsulationStyle::Continuous,
    }
}

impl Subtype {
    /// The header layout this subtype's packets use.
    pub fn header_type(&self) -> (r: HeaderType)
        ensures
            r == header_type_of(*self),
    {
        match self {
            Self::IEC_61883_IIDC => HeaderType::Stream,
            Self::MMA_STREAM => HeaderType::Stream,
            Self::AAF => HeaderType::Stream,
            Self::CVF => HeaderType::Stream,
            Self::CRF => HeaderType::Alternative,
            Self::TSCF => HeaderType::Stream,
            Self::SVF => HeaderType::Stream,
            Self::RVF => HeaderType::Stream,
            Self::AEF_CONTINUOUS => HeaderType::Alternative,
            Self::VSF_STREAM => HeaderType::Stream,
            Self::EF_STREAM => HeaderType::Stream,
            Self::NTSCF => HeaderType::Alternative,
            Self::ESCF => HeaderType::Alternative,
            Self::EECF => HeaderType::Alternative,
            Self::AEF_DISCRETE => HeaderType::Alternative,
            Self::ADP => HeaderType::Control,
            Self::AECP => HeaderType::Control,
            Self::ACMP => HeaderType::Control,
            Self::MAAP => HeaderType::Control,
            Self::EF_CONTROL => HeaderType::Control,
        }
    }

    /// Whether this subtype's packets form a continuous stream or discrete units.
    pub fn encapsulation_style(&self) -> (r: EncapsulationStyle)
        ensures
            r == encapsulation_style_of(*self),
    {
        match self {
            Self::IEC_61883_IIDC => EncapsulationStyle::Continuous,
            Self::MMA_STREAM => EncapsulationStyle::Continuous,
            Self::AAF => EncapsulationStyle::Continuous,
            Self::CVF => EncapsulationStyle::Continuous,
            Self::CRF => EncapsulationStyle::Continuous,
            Self::TSCF => EncapsulationStyle::Continuous,
            Self::SVF => EncapsulationStyle::Continuous,
            Self::RVF => EncapsulationStyle::Continuous,
            Self::AEF_CONTINUOUS => EncapsulationStyle::Continuous,
            Self::VSF_STREAM => EncapsulationStyle::Continuous,
            Self::EF_STREAM => EncapsulationStyle::Continuous,
            Self::NTSCF => EncapsulationStyle::Discrete,
            Self::ESCF => EncapsulationStyle::Discrete,
            Self::EECF => EncapsulationStyle::Discrete,
            Self::AEF_DISCRETE => EncapsulationStyle::Discrete,
            Self::ADP => EncapsulationStyle::Discrete,
            Self::AECP => EncapsulationStyle::Discrete,
            Self::ACMP => EncapsulationStyle::Discrete,
            Self::MAAP => EncapsulationStyle::Discrete,
            Self::EF_CONTROL => EncapsulationStyle::Discrete,
        }
    }

    /// The wire value of this subtype.
    pub fn as_u8(&self) -> (r: u8)
        ensures
            r == subtype_byte(*self),
    {
        match self {
            Self::IEC_61883_IIDC => 0x00,
            Self::MMA_STREAM => 0x01,
            Self::AAF => 0x02,
            Self::CVF => 0x03,
            Self::CRF => 0x04,
            Self::TSCF => 0x05,
            Self::SVF => 0x06,
            Self::RVF => 0x07,
            Self::AEF_CONTINUOUS => 0x6E,
            Self::VSF_STREAM => 0x6F,
            Self::EF_STREAM => 0x7F,
            Self::NTSCF => 0x82,
            Self::ESCF => 0xEC,
            Self::EECF => 0xED,
            Self::AEF_DISCRETE => 0xEE,
            Self::ADP => 0xFA,
            Self::AECP => 0xFB,
            Self::ACMP => 0xFC,
            Self::MAAP => 0xFD,
            Self::EF_CONTROL => 0xFF,
        }
    }

    /// Interprets a wire byte as a subtype; unknown and reserved values are refused.
    pub fn from_u8(value: u8) -> (r: Result<Self, UnknownSubtype>)
        ensures
            subtype_from_byte(value) matches Some(s) ==> r == Ok::<Self, UnknownSubtype>(s),
            subtype_from_byte(value) is None ==> r == Err::<Self, UnknownSubtype>(
                UnknownSubtype(value),
            ),
    {
        match value {
            0x00 => Ok(Self::IEC_61883_IIDC),
            0x01 => Ok(Self::MMA_STREAM),
            0x02 => Ok(Self::AAF),
            0x03 => Ok(Self::CVF),
            0x04 => Ok(Self::CRF),
            0x05 => Ok(Self::TSCF),
            0x06 => Ok(Self::SVF),
            0x07 => Ok(Self::RVF),
            0x6E => Ok(Self::AEF_CONTINUOUS),
            0x6F => Ok(Self::VSF_STREAM),
            0x7F => Ok(Self::EF_STREAM),
            0x82 => Ok(Self::NTSCF),
            0xEC => Ok(Self::ESCF),
            0xED => Ok(Self::EECF),
            0xEE => Ok(Self::AEF_DISCRETE),
            0xFA => Ok(Self::ADP),
            0xFB => Ok(Self::AECP),
            0xFC => Ok(Self::ACMP),
            0xFD => Ok(Self::MAAP),
            0xFF => Ok(Self::EF_CONTROL),
            _ => Err(UnknownSubtype(value)),
        }
    }
}

impl TryFrom<u8> for Subtype {
    type Error = UnknownSubtype;

    fn try_from(value: u8) -> (r: Result<Self, UnknownSubtype>) {
        Self::from_u8(value)
    }
}

impl vstd::std_specs::convert::TryFromSpecImpl<u8> for Subtype {
    open spec fn obeys_try_from_spec() -> bool {
        true
    }

    open spec fn try_from_spec(value: u8) -> Result<Self, UnknownSubtype> {
        match subtype_from_byte(value) {
            Some(s) => Ok(s),
            None => Err(UnknownSubtype(value)),
        }
    }
}

/// Reading a subtype's wire value gives the subtype back, and every known wire
/// value is the wire value of the subtype it names.
pub proof fn lemma_subtype_byte_roundtrip(s: Subtype, b: u8)
    ensures
        subtype_from_byte(subtype_byte(s)) == Some(s),
        subtype_from_byte(b) matches Some(t) ==> subtype_byte(t) == b,
{
}

} // verus!
