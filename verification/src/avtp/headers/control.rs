use vstd::prelude::*;

use crate::avtp::headers::common::{
    CommonHeader, common_fits, common_high, lemma_common_high_of_parse, lemma_parse_common_of,
    parse_common,
};
use crate::avtp::stream_id::{StreamID, lemma_stream_id_roundtrip, stream_id_at, stream_id_bytes};
use crate::avtp::subtype::{UnknownSubtype, subtype_byte};
use crate::io::bytes::{copy_range, push_bytes};
use crate::io::enc_dec::{IOWrapError, IoError};

verus! {

/// Header of AVTP control-oriented packets.
#[derive(Debug, Clone, PartialEq, Eq)]
pub struct ControlHeader {
    /// The preceding common header; its flag bit is `sv` (stream ID valid).
    pub common: CommonHeader,
    /// Control-format extension bits (9 bits on the wire).
    pub format_specific_data: u16,
    /// Size of [`Self::control_data_payload`] in bytes (11 bits on the wire).
    pub control_data_length: u16,
    /// Stream identifier associated with this control message; meaningful only
    /// when [`Self::stream_id_valid`] is `true`.
    pub stream_id: StreamID,
    /// Control payload bytes interpreted by the selected control subtype.
    pub control_data_payload: Vec<u8>,
}

/// Model of [`ControlHeader`].
pub struct ControlHeaderView {
    pub common: CommonHeader,
    pub format_specific_data: u16,
    pub control_data_length: u16,
    pub stream_id: StreamID,
    pub control_data_payload: Seq<u8>,
}

impl View for ControlHeader {
    type V = ControlHeaderView;

    open spec fn view(&self) -> ControlHeaderView {
        ControlHeaderView {
            common: self.common,
            format_specific_data: self.format_specific_data,
            control_data_length: self.control_data_length,
            stream_id: self.stream_id,
            control_data_payload: self.control_data_payload@,
        }
    }
}

/// Whether every field fits its bit width on the wire.
pub open spec fn control_fits(h: ControlHeaderView) -> bool {
    &&& common_fits(h.common)
    &&& h.format_specific_data < 512
    &&& h.control_data_length < 2048
}

/// Whether the declared payload length matches the payload.
pub open spec fn control_length_consistent(h: ControlHeaderView) -> bool {
    h.control_data_payload.len() == h.control_data_length
}

/// The wire bytes of a control header (12 header bytes followed by the payload).
pub open spec fn control_header_bytes(h: ControlHeaderView) -> Seq<u8> {
    seq![
        subtype_byte(h.common.subtype),
        (common_high(h.common) + h.format_specific_data / 32) as u8,
        ((h.format_specific_data % 32) * 8 + h.control_data_length / 256) as u8,
        (h.control_data_length % 256) as u8,
    ] + stream_id_bytes(h.stream_id) + h.control_data_payload
}

/// The control header that follows an already read common header, or
/// [`IoError::UnexpectedEof`] when the bytes end too early.
pub open spec fn parse_control_after_common(c: CommonHeader, b: Seq<u8>) -> Result<
    ControlHeaderView,
    IoError,
> {
    if b.len() < 12 {
        Err(IoError::UnexpectedEof)
    } else {
        let len = ((b[2] % 8) * 256 + b[3]) as u16;
        if b.len() < 12 + len {
            Err(IoError::UnexpectedEof)
        } else {
            Ok(
                ControlHeaderView {
                    common: c,
                    format_specific_data: ((b[1] % 16) * 32 + b[2] / 8) as u16,
                    control_data_length: len,
                    stream_id: stream_id_at(b, 4),
                    control_data_payload: b.subrange(12, 12 + len),
                },
            )
        }
    }
}

/// The control header at the start of the bytes, or why there is none.
pub open spec fn parse_control(b: Seq<u8>) -> Result<ControlHeaderView, IOWrapError<UnknownSubtype>> {
    match parse_common(b) {
        Err(e) => Err(e),
        Ok(c) => match parse_control_after_common(c, b) {
            Err(k) => Err(IOWrapError::Io(k)),
            Ok(h) => Ok(h),
        },
    }
}

/// Decoding the bytes of a control header, followed by anything, gives the header
/// back.
pub proof fn lemma_control_decode_encode(h: ControlHeaderView, rest: Seq<u8>)
    requires
        control_fits(h),
        control_length_consistent(h),
    ensures
        parse_control(control_header_bytes(h) + rest) == Ok::<
            ControlHeaderView,
            IOWrapError<UnknownSubtype>,
        >(h),
{
    let b = control_header_bytes(h) + rest;
    let f = h.format_specific_data as int;
    let l = h.control_data_length as int;
    lemma_parse_common_of(h.common, b, f / 32);
    let b1 = b[1] as int;
    let b2 = b[2] as int;
    let b3 = b[3] as int;
    assert((b1 % 16) * 32 + b2 / 8 == f && (b2 % 8) * 256 + b3 == l) by (nonlinear_arith)
        requires
            b1 == common_high(h.common) + f / 32,
            common_high(h.common) % 16 == 0,
            0 <= common_high(h.common),
            b2 == (f % 32) * 8 + l / 256,
            b3 == l % 256,
            0 <= f < 512,
            0 <= l < 2048,
    ;
    lemma_stream_id_roundtrip(h.stream_id, b, 4);
    assert(b.subrange(4, 12) =~= stream_id_bytes(h.stream_id));
    assert(stream_id_at(b, 4) == stream_id_at(stream_id_bytes(h.stream_id), 0));
    let p = parse_control(b)->Ok_0;
    assert(p.control_data_payload =~= h.control_data_payload);
    assert(p == h);
}

/// The bytes of a decoded control header are exactly the bytes it was decoded
/// from.
pub proof fn lemma_control_encode_decode(b: Seq<u8>)
    requires
        parse_control(b) is Ok,
    ensures
        control_fits(parse_control(b)->Ok_0),
        control_length_consistent(parse_control(b)->Ok_0),
        control_header_bytes(parse_control(b)->Ok_0) =~= b.subrange(
            0,
            control_header_bytes(parse_control(b)->Ok_0).len() as int,
        ),
{
    let h = parse_control(b)->Ok_0;
    lemma_common_high_of_parse(b);
    let b1 = b[1] as int;
    let b2 = b[2] as int;
    let b3 = b[3] as int;
    let f = h.format_specific_data as int;
    let l = h.control_data_length as int;
    assert(b1 % 16 == f / 32 && b2 == (f % 32) * 8 + l / 256 && b3 == l % 256 && f < 512 && l
        < 2048) by (nonlinear_arith)
        requires
            0 <= b1 < 256,
            0 <= b2 < 256,
            0 <= b3 < 256,
            f == (b1 % 16) * 32 + b2 / 8,
            l == (b2 % 8) * 256 + b3,
    ;
    lemma_stream_id_roundtrip(h.stream_id, b, 4);
    let e = control_header_bytes(h);
    assert forall|i: int| 0 <= i < e.len() implies e[i] == b[i] by {
        if 4 <= i < 12 {
            assert(stream_id_bytes(h.stream_id)[i - 4] == b.subrange(4, 12)[i - 4]);
        }
    }
}

impl ControlHeader {
    /// Returns the `sv` bit (stream ID valid).
    pub fn stream_id_valid(&self) -> (r: bool)
        ensures
            r == self.common.header_specific_bit,
    {
        self.common.header_specific_bit
    }

    /// Decodes the control header that follows an already decoded common header;
    /// `bytes` still starts with the two bytes that held the common header.
    pub fn decode_after_common(common: CommonHeader, bytes: &[u8]) -> (r: Result<Self, IoError>)
        requires
            parse_common(bytes@) == Ok::<CommonHeader, IOWrapError<UnknownSubtype>>(common),
        ensures
            match (r, parse_control_after_common(common, bytes@)) {
                (Ok(h), Ok(v)) => h@ == v,
                (Err(e), Err(k)) => e == k,
                _ => false,
            },
    {
        if bytes.len() < 12 {
            return Err(IoError::UnexpectedEof);
        }
        let b1 = bytes[1];
        let b2 = bytes[2];
        let b3 = bytes[3];
        let len: u16 = ((b2 % 8) as u16) * 256 + (b3 as u16);
        if bytes.len() - 12 < len as usize {
            return Err(IoError::UnexpectedEof);
        }
        Ok(
            ControlHeader {
                common,
                format_specific_data: ((b1 % 16) as u16) * 32 + ((b2 / 8) as u16),
                control_data_length: len,
                stream_id: StreamID::decode_at(bytes, 4),
                control_data_payload: copy_range(bytes, 12, 12 + len as usize),
            },
        )
    }

    /// Decodes a control header from the start of the bytes.
    pub fn decode(bytes: &[u8]) -> (r: Result<Self, IOWrapError<UnknownSubtype>>)
        ensures
            match (r, parse_control(bytes@)) {
                (Ok(h), Ok(v)) => h@ == v,
                (Err(e), Err(k)) => e == k,
                _ => false,
            },
    {
        let common = CommonHeader::decode(bytes)?;
        match Self::decode_after_common(common, bytes) {
            Ok(h) => Ok(h),
            Err(k) => Err(IOWrapError::Io(k)),
        }
    }

    /// Appends the wire bytes of this header; fails without writing when a field
    /// does not fit its bit width.
    pub fn encode(&self, out: &mut Vec<u8>) -> (r: Result<(), IoError>)
        requires
            control_length_consistent(self@),
        ensures
            r is Ok <==> control_fits(self@),
            r is Ok ==> final(out)@ == old(out)@ + control_header_bytes(self@),
            r is Err ==> r == Err::<(), IoError>(IoError::InvalidInput) && final(out)@ == old(out)@,
    {
        if self.common.version >= 8 || self.format_specific_data >= 512 || self.control_data_length
            >= 2048 {
            return Err(IoError::InvalidInput);
        }
        let f = self.format_specific_data;
        let l = self.control_data_length;
        out.push(self.common.subtype.as_u8());
        out.push(self.common.high_nibble() + (f / 32) as u8);
        out.push(((f % 32) * 8 + l / 256) as u8);
        out.push((l % 256) as u8);
        self.stream_id.encode(out);
        push_bytes(out, self.control_data_payload.as_slice());
        assert(final(out)@ =~= old(out)@ + control_header_bytes(self@));
        Ok(())
    }
}

} // verus!
