use vstd::prelude::*;

use crate::avtp::subtype::{Subtype, UnknownSubtype, subtype_byte, subtype_from_byte};
use crate::io::enc_dec::{IOWrapError, IoError};

verus! {

/// Common 12-bit prefix shared by all AVTP packets: the subtype, a
/// layout-dependent flag bit and 3 version bits.
#[derive(Debug, Clone, Copy, PartialEq, Eq, Structural)]
pub struct CommonHeader {
    /// Format identifier for the packet payload and header interpretation.
    pub subtype: Subtype,
    /// A single flag whose meaning depends on the header layout (`sv` for stream
    /// and control headers).
    pub header_specific_bit: bool,
    /// Protocol version bits (3 bits on the wire).
    pub version: u8,
}

/// 1 for a set flag, 0 otherwise.
pub open spec fn bit(b: bool) -> int {
    if b {
        1
    } else {
        0
    }
}

/// Whether every field fits its bit width on the wire.
pub open spec fn common_fits(c: CommonHeader) -> bool {
    c.version < 8
}

/// The upper nibble of the second wire byte: the flag bit and the version.
pub open spec fn common_high(c: CommonHeader) -> int {
    bit(c.header_specific_bit) * 128 + c.version * 16
}

/// The common header held in the first two bytes, or why there is none.
pub open spec fn parse_common(b: Seq<u8>) -> Result<CommonHeader, IOWrapError<UnknownSubtype>> {
    if b.len() < 1 {
        Err(IOWrapError::Io(IoError::UnexpectedEof))
    } else {
        match subtype_from_byte(b[0]) {
            None => Err(IOWrapError::Specific(UnknownSubtype(b[0]))),
            Some(s) => if b.len() < 2 {
                Err(IOWrapError::Io(IoError::UnexpectedEof))
            } else {
                Ok(
                    CommonHeader {
                        subtype: s,
                        header_specific_bit: b[1] >= 128,
                        version: ((b[1] / 16) % 8) as u8,
                    },
                )
            },
        }
    }
}

/// A common header read back from bytes that start with its subtype byte and
/// whose second byte carries its flag and version above any lower nibble.
pub proof fn lemma_parse_common_of(c: CommonHeader, b: Seq<u8>, low: int)
    requires
        common_fits(c),
        0 <= low < 16,
        b.len() >= 2,
        b[0] == subtype_byte(c.subtype),
        b[1] == common_high(c) + low,
    ensures
        parse_common(b) == Ok::<CommonHeader, IOWrapError<UnknownSubtype>>(c),
{
    crate::avtp::subtype::lemma_subtype_byte_roundtrip(c.subtype, b[0]);
    let b1 = b[1] as int;
    assert((b1 >= 128) == c.header_specific_bit);
    assert((b1 / 16) % 8 == c.version) by {
        assert(b1 == 16 * (bit(c.header_specific_bit) * 8 + c.version) + low);
        vstd::arithmetic::div_mod::lemma_fundamental_div_mod_converse(
            b1, 16, bit(c.header_specific_bit) * 8 + c.version, low);
        vstd::arithmetic::div_mod::lemma_fundamental_div_mod_converse(
            bit(c.header_specific_bit) * 8 + c.version, 8, bit(c.header_specific_bit), c.version as int);
    }
}

/// The second wire byte of a parsed common header splits into the header's
/// upper nibble and a lower nibble.
pub proof fn lemma_common_high_of_parse(b: Seq<u8>)
    requires
        parse_common(b) is Ok,
    ensures
        b[1] == common_high(parse_common(b)->Ok_0) + b[1] % 16,
        common_fits(parse_common(b)->Ok_0),
        b[0] == subtype_byte(parse_common(b)->Ok_0.subtype),
{
    let c = parse_common(b)->Ok_0;
    crate::avtp::subtype::lemma_subtype_byte_roundtrip(c.subtype, b[0]);
    let b1 = b[1] as int;
    vstd::arithmetic::div_mod::lemma_fundamental_div_mod(b1, 16);
    vstd::arithmetic::div_mod::lemma_fundamental_div_mod(b1 / 16, 8);
}

impl CommonHeader {
    /// Reads the common header from the first two bytes.
    pub fn decode(bytes: &[u8]) -> (r: Result<Self, IOWrapError<UnknownSubtype>>)
        ensures
            r == parse_common(bytes@),
    {
        if bytes.len() < 1 {
            return Err(IOWrapError::Io(IoError::UnexpectedEof));
        }
        let subtype = match Subtype::from_u8(bytes[0]) {
            Ok(s) => s,
            Err(e) => return Err(IOWrapError::Specific(e)),
        };
        if bytes.len() < 2 {
            return Err(IOWrapError::Io(IoError::UnexpectedEof));
        }
        let b1 = bytes[1];
        Ok(CommonHeader { subtype, header_specific_bit: b1 >= 128, version: (b1 / 16) % 8 })
    }

    /// The upper nibble of the second wire byte.
    pub(crate) fn high_nibble(&self) -> (r: u8)
        requires
            common_fits(*self),
        ensures
            r == common_high(*self),
    {
        let flag: u8 = if self.header_specific_bit { 128 } else { 0 };
        flag + self.version * 16
    }
}

} // verus!
