use vstd::prelude::*;

use crate::avtp::headers::common::{
    CommonHeader, bit, common_fits, common_high, lemma_common_high_of_parse, lemma_parse_common_of,
    parse_common,
};
use crate::avtp::stream_id::{StreamID, lemma_stream_id_roundtrip, stream_id_at, stream_id_bytes};
use crate::avtp::subtype::{UnknownSubtype, subtype_byte};
use crate::io::bytes::{
    be16, be16_value, be32, be32_value, copy_range, lemma_be16, lemma_be32, push_be16, push_be32,
    push_bytes,
};
use crate::io::enc_dec::{IOWrapError, IoError};

verus! {

/// Errors of building stream header data.
#[derive(Debug, Clone, Copy, PartialEq, Eq, Structural)]
pub enum StreamDataError {
    /// The payload holds more bytes than the 16-bit length field can describe.
    PayloadTooLarge(usize),
}

/// Transport-level metadata shared by all AVTP stream-oriented packets.
#[derive(Debug, Clone, Copy, PartialEq, Eq)]
pub struct GenericStreamData {
    /// The preceding common header; its flag bit is `sv` (stream ID valid).
    pub common: CommonHeader,
    /// Media-clock restart indicator (`mr`).
    pub media_clock_restart: bool,
    /// Timestamp validity flag (`tv`) for [`Self::avtp_timestamp`].
    pub avtp_timestamp_valid: bool,
    /// Per-stream packet sequence counter.
    pub sequence_num: u8,
    /// Timestamp-uncertain flag (`tu`).
    pub timestamp_uncertain: bool,
    /// Stable 64-bit identifier of the source stream.
    pub stream_id: StreamID,
    /// Presentation timestamp in nanoseconds on a wrapping 32-bit timeline.
    pub avtp_timestamp: u32,
    /// The length in bytes of [`SpecificStreamData::stream_data_payload`].
    pub stream_data_length: u16,
}

impl GenericStreamData {
    /// Returns the `sv` bit (stream ID valid).
    pub fn stream_id_valid(&self) -> (r: bool)
        ensures
            r == self.common.header_specific_bit,
    {
        self.common.header_specific_bit
    }
}

/// Subtype-defined fields and payload of AVTP stream-oriented packets.
#[derive(Debug, PartialEq, Eq)]
pub struct SpecificStreamData {
    /// Subtype-defined extension bits (`f_s_d`, 2 bits on the wire).
    pub format_specific_data: u8,
    /// Additional subtype-defined extension bits (7 bits on the wire).
    pub format_specific_data_1: u8,
    /// Additional subtype-defined extension bytes.
    pub format_specific_data_2: [u8; 4],
    /// Additional subtype-defined extension bytes.
    pub format_specific_data_3: [u8; 2],
    /// Format payload bytes; their number must equal
    /// [`GenericStreamData::stream_data_length`].
    pub stream_data_payload: Vec<u8>,
}

/// Model of [`SpecificStreamData`].
pub struct SpecificStreamDataView {
    pub format_specific_data: u8,
    pub format_specific_data_1: u8,
    pub format_specific_data_2: [u8; 4],
    pub format_specific_data_3: [u8; 2],
    pub stream_data_payload: Seq<u8>,
}

impl View for SpecificStreamData {
    type V = SpecificStreamDataView;

    open spec fn view(&self) -> SpecificStreamDataView {
        SpecificStreamDataView {
            format_specific_data: self.format_specific_data,
            format_specific_data_1: self.format_specific_data_1,
            format_specific_data_2: self.format_specific_data_2,
            format_specific_data_3: self.format_specific_data_3,
            stream_data_payload: self.stream_data_payload@,
        }
    }
}

/// Header of AVTP stream-oriented packets.
#[derive(Debug, PartialEq, Eq)]
pub struct StreamHeader {
    /// Transport-level metadata shared across all stream subtypes.
    pub generic: GenericStreamData,
    /// Subtype-defined fields and payload.
    pub specific: SpecificStreamData,
}

/// Model of [`StreamHeader`].
pub struct StreamHeaderView {
    pub generic: GenericStreamData,
    pub specific: SpecificStreamDataView,
}

impl View for StreamHeader {
    type V = StreamHeaderView;

    open spec fn view(&self) -> StreamHeaderView {
        StreamHeaderView { generic: self.generic, specific: self.specific@ }
    }
}

/// Whether every field fits its bit width on the wire.
pub open spec fn stream_fits(h: StreamHeaderView) -> bool {
    &&& common_fits(h.generic.common)
    &&& h.specific.format_specific_data < 4
    &&& h.specific.format_specific_data_1 < 128
}

/// Whether the declared payload length matches the payload.
pub open spec fn stream_length_consistent(h: StreamHeaderView) -> bool {
    h.specific.stream_data_payload.len() == h.generic.stream_data_length
}

/// The wire bytes of a stream header (24 header bytes followed by the payload).
pub open spec fn stream_header_bytes(h: StreamHeaderView) -> Seq<u8> {
    let g = h.generic;
    let s = h.specific;
    seq![
        subtype_byte(g.common.subtype),
        (common_high(g.common) + bit(g.media_clock_restart) * 8 + s.format_specific_data * 2 + bit(
            g.avtp_timestamp_valid,
        )) as u8,
        g.sequence_num,
        (s.format_specific_data_1 * 2 + bit(g.timestamp_uncertain)) as u8,
    ] + stream_id_bytes(g.stream_id) + be32(g.avtp_timestamp) + s.format_specific_data_2@ + be16(
        g.stream_data_length,
    ) + s.format_specific_data_3@ + s.stream_data_payload
}

/// The stream header that follows an already read common header, or
/// [`IoError::UnexpectedEof`] when the bytes end too early.
pub open spec fn parse_stream_after_common(c: CommonHeader, b: Seq<u8>) -> Result<
    StreamHeaderView,
    IoError,
> {
    if b.len() < 24 {
        Err(IoError::UnexpectedEof)
    } else {
        let len = be16_value(b[20], b[21]);
        if b.len() < 24 + len {
            Err(IoError::UnexpectedEof)
        } else {
            Ok(
                StreamHeaderView {
                    generic: GenericStreamData {
                        common: c,
                        media_clock_restart: (b[1] / 8) % 2 == 1,
                        avtp_timestamp_valid: b[1] % 2 == 1,
                        sequence_num: b[2],
                        timestamp_uncertain: b[3] % 2 == 1,
                        stream_id: stream_id_at(b, 4),
                        avtp_timestamp: be32_value(b[12], b[13], b[14], b[15]),
                        stream_data_length: len,
                    },
                    specific: SpecificStreamDataView {
                        format_specific_data: ((b[1] / 2) % 4) as u8,
                        format_specific_data_1: (b[3] / 2) as u8,
                        format_specific_data_2: [b[16], b[17], b[18], b[19]],
                        format_specific_data_3: [b[22], b[23]],
                        stream_data_payload: b.subrange(24, 24 + len),
                    },
                },
            )
        }
    }
}

/// The stream header at the start of the bytes, or why there is none.
pub open spec fn parse_stream(b: Seq<u8>) -> Result<StreamHeaderView, IOWrapError<UnknownSubtype>> {
    match parse_common(b) {
        Err(e) => Err(e),
        Ok(c) => match parse_stream_after_common(c, b) {
            Err(k) => Err(IOWrapError::Io(k)),
            Ok(h) => Ok(h),
        },
    }
}

/// Decoding the bytes of a stream header, followed by anything, gives the header
/// back.
pub proof fn lemma_stream_decode_encode(h: StreamHeaderView, rest: Seq<u8>)
    requires
        stream_fits(h),
        stream_length_consistent(h),
    ensures
        parse_stream(stream_header_bytes(h) + rest) == Ok::<
            StreamHeaderView,
            IOWrapError<UnknownSubtype>,
        >(h),
{
    let g = h.generic;
    let s = h.specific;
    let b = stream_header_bytes(h) + rest;
    let low = bit(g.media_clock_restart) * 8 + s.format_specific_data * 2 + bit(
        g.avtp_timestamp_valid,
    );
    lemma_parse_common_of(g.common, b, low);
    let b1 = b[1] as int;
    assert(b1 == 16 * (common_high(g.common) / 16) + low);
    assert((b1 / 8) % 2 == bit(g.media_clock_restart) && (b1 / 2) % 4 == s.format_specific_data
        && b1 % 2 == bit(g.avtp_timestamp_valid)) by (nonlinear_arith)
        requires
            b1 == 16 * (common_high(g.common) / 16) + low,
            low == bit(g.media_clock_restart) * 8 + s.format_specific_data * 2 + bit(
                g.avtp_timestamp_valid,
            ),
            0 <= s.format_specific_data < 4,
            0 <= bit(g.media_clock_restart) <= 1,
            0 <= bit(g.avtp_timestamp_valid) <= 1,
    ;
    let b3 = b[3] as int;
    assert(b3 / 2 == s.format_specific_data_1 && b3 % 2 == bit(g.timestamp_uncertain));
    lemma_stream_id_roundtrip(g.stream_id, b, 4);
    assert(b.subrange(4, 12) =~= stream_id_bytes(g.stream_id));
    assert(stream_id_at(b, 4) == stream_id_at(stream_id_bytes(g.stream_id), 0));
    lemma_be32(g.avtp_timestamp, 0, 0, 0, 0);
    lemma_be16(g.stream_data_length, 0, 0);
    let p = parse_stream(b)->Ok_0;
    assert(p.specific.stream_data_payload =~= s.stream_data_payload);
    assert(p.specific.format_specific_data_2@ =~= s.format_specific_data_2@);
    assert(p.specific.format_specific_data_3@ =~= s.format_specific_data_3@);
    assert(p.specific.format_specific_data_2 == s.format_specific_data_2);
    assert(p.specific.format_specific_data_3 == s.format_specific_data_3);
    assert(p.generic.stream_id == g.stream_id);
    assert(p.generic.avtp_timestamp == g.avtp_timestamp);
    assert(p.generic.stream_data_length == g.stream_data_length);
    assert(p.generic == g);
    assert(p.specific == s);
}

/// The bytes of a decoded stream header are exactly the bytes it was decoded from.
pub proof fn lemma_stream_encode_decode(b: Seq<u8>)
    requires
        parse_stream(b) is Ok,
    ensures
        stream_fits(parse_stream(b)->Ok_0),
        stream_length_consistent(parse_stream(b)->Ok_0),
        stream_header_bytes(parse_stream(b)->Ok_0) =~= b.subrange(
            0,
            stream_header_bytes(parse_stream(b)->Ok_0).len() as int,
        ),
{
    let h = parse_stream(b)->Ok_0;
    let g = h.generic;
    let s = h.specific;
    lemma_common_high_of_parse(b);
    let b1 = b[1] as int;
    let b3 = b[3] as int;
    assert(b1 % 16 == bit(g.media_clock_restart) * 8 + s.format_specific_data * 2 + bit(
        g.avtp_timestamp_valid,
    )) by (nonlinear_arith)
        requires
            0 <= b1 < 256,
            bit(g.media_clock_restart) == (if (b1 / 8) % 2 == 1 { 1int } else { 0int }),
            bit(g.avtp_timestamp_valid) == (if b1 % 2 == 1 { 1int } else { 0int }),
            s.format_specific_data == (b1 / 2) % 4,
    ;
    assert(b3 == s.format_specific_data_1 * 2 + bit(g.timestamp_uncertain));
    lemma_stream_id_roundtrip(g.stream_id, b, 4);
    lemma_be32(0, b[12], b[13], b[14], b[15]);
    lemma_be16(0, b[20], b[21]);
    let e = stream_header_bytes(h);
    assert forall|i: int| 0 <= i < e.len() implies e[i] == b[i] by {
        if 4 <= i < 12 {
            assert(stream_id_bytes(g.stream_id)[i - 4] == b.subrange(4, 12)[i - 4]);
        }
    }
}

impl Clone for SpecificStreamData {
    fn clone(&self) -> (r: Self)
        ensures
            r@ == self@,
    {
        let payload = copy_range(self.stream_data_payload.as_slice(), 0, self.stream_data_payload.len());
        assert(payload@ =~= self.stream_data_payload@);
        SpecificStreamData {
            format_specific_data: self.format_specific_data,
            format_specific_data_1: self.format_specific_data_1,
            format_specific_data_2: self.format_specific_data_2,
            format_specific_data_3: self.format_specific_data_3,
            stream_data_payload: payload,
        }
    }
}

impl Clone for StreamHeader {
    fn clone(&self) -> (r: Self)
        ensures
            r@ == self@,
    {
        StreamHeader { generic: self.generic, specific: self.specific.clone() }
    }
}

impl StreamHeader {
    /// Decodes the stream header that follows an already decoded common header;
    /// `bytes` still starts with the two bytes that held the common header.
    pub fn decode_after_common(common: CommonHeader, bytes: &[u8]) -> (r: Result<Self, IoError>)
        requires
            parse_common(bytes@) == Ok::<CommonHeader, IOWrapError<UnknownSubtype>>(common),
        ensures
            match (r, parse_stream_after_common(common, bytes@)) {
                (Ok(h), Ok(v)) => h@ == v,
                (Err(e), Err(k)) => e == k,
                _ => false,
            },
    {
        if bytes.len() < 24 {
            return Err(IoError::UnexpectedEof);
        }
        let len = (bytes[20] as u16) * 0x100 + (bytes[21] as u16);
        if bytes.len() - 24 < len as usize {
            return Err(IoError::UnexpectedEof);
        }
        let b1 = bytes[1];
        let b3 = bytes[3];
        let generic = GenericStreamData {
            common,
            media_clock_restart: (b1 / 8) % 2 == 1,
            avtp_timestamp_valid: b1 % 2 == 1,
            sequence_num: bytes[2],
            timestamp_uncertain: b3 % 2 == 1,
            stream_id: StreamID::decode_at(bytes, 4),
            avtp_timestamp: (bytes[12] as u32) * 0x100_0000 + (bytes[13] as u32) * 0x1_0000 + (
            bytes[14] as u32) * 0x100 + (bytes[15] as u32),
            stream_data_length: len,
        };
        let specific = SpecificStreamData {
            format_specific_data: (b1 / 2) % 4,
            format_specific_data_1: b3 / 2,
            format_specific_data_2: [bytes[16], bytes[17], bytes[18], bytes[19]],
            format_specific_data_3: [bytes[22], bytes[23]],
            stream_data_payload: copy_range(bytes, 24, 24 + len as usize),
        };
        let h = StreamHeader { generic, specific };
        assert(h@.specific.format_specific_data_2@ =~= seq![bytes@[16], bytes@[17], bytes@[18], bytes@[19]]);
        Ok(h)
    }

    /// Decodes a stream header from the start of the bytes.
    pub fn decode(bytes: &[u8]) -> (r: Result<Self, IOWrapError<UnknownSubtype>>)
        ensures
            match (r, parse_stream(bytes@)) {
                (Ok(h), Ok(v)) => h@ == v,
                (Err(e), Err(k)) => e == k,
                _ => false,
            },
    {
        let common = CommonHeader::decode(bytes)?;
        match Self::decode_after_common(common, bytes) {
            Ok(h) => Ok(h),
            Err(k) => Err(IOWrapError::Io(k)),
        }
    }

    /// Appends the wire bytes of this header; fails without writing when a field
    /// does not fit its bit width.
    pub fn encode(&self, out: &mut Vec<u8>) -> (r: Result<(), IoError>)
        requires
            stream_length_consistent(self@),
        ensures
            r is Ok <==> stream_fits(self@),
            r is Ok ==> final(out)@ == old(out)@ + stream_header_bytes(self@),
            r is Err ==> r == Err::<(), IoError>(IoError::InvalidInput) && final(out)@ == old(out)@,
    {
        let g = &self.generic;
        let s = &self.specific;
        if g.common.version >= 8 || s.format_specific_data >= 4 || s.format_specific_data_1 >= 128 {
            return Err(IoError::InvalidInput);
        }
        let mr: u8 = if g.media_clock_restart { 8 } else { 0 };
        let tv: u8 = if g.avtp_timestamp_valid { 1 } else { 0 };
        let tu: u8 = if g.timestamp_uncertain { 1 } else { 0 };
        out.push(g.common.subtype.as_u8());
        out.push(g.common.high_nibble() + mr + s.format_specific_data * 2 + tv);
        out.push(g.sequence_num);
        out.push(s.format_specific_data_1 * 2 + tu);
        g.stream_id.encode(out);
        push_be32(out, g.avtp_timestamp);
        push_bytes(out, &s.format_specific_data_2);
        push_be16(out, g.stream_data_length);
        push_bytes(out, &s.format_specific_data_3);
        push_bytes(out, s.stream_data_payload.as_slice());
        assert(final(out)@ =~= old(out)@ + stream_header_bytes(self@));
        Ok(())
    }
}

/// Where each field of an encoded stream header stands (IEEE 1722 stream
/// layout): byte 0 the subtype; byte 1 the `sv` bit (0x80), three version
/// bits, the `mr` bit (0x08), two reserved bits and the `tv` bit (0x01);
/// byte 2 the sequence number; byte 3 seven reserved bits then the `tu` bit;
/// bytes 4 to 11 the stream ID (MAC address, then unique ID big-endian);
/// bytes 12 to 15 the AVTP timestamp big-endian; bytes 16 to 19 the format
/// fields; bytes 20 and 21 the payload length big-endian; bytes 22 and 23 the
/// format fields; then the payload.
pub proof fn lemma_stream_header_layout(h: StreamHeaderView)
    requires
        stream_fits(h),
    ensures
        ({
            let b = stream_header_bytes(h);
            let g = h.generic;
            let s = h.specific;
            &&& b.len() == 24 + s.stream_data_payload.len()
            &&& b[0] == subtype_byte(g.common.subtype)
            &&& b[1] as int == (if g.common.header_specific_bit { 0x80int } else { 0 })
                + g.common.version * 16 + (if g.media_clock_restart { 8int } else { 0 })
                + s.format_specific_data * 2 + (if g.avtp_timestamp_valid { 1int } else { 0 })
            &&& b[2] == g.sequence_num
            &&& b[3] as int == s.format_specific_data_1 * 2 + (if g.timestamp_uncertain {
                1int
            } else {
                0
            })
            &&& b.subrange(4, 10) == g.stream_id.mac_address.0@
            &&& b[10] as int * 0x100 + b[11] as int == g.stream_id.unique_id
            &&& b[12] as int * 0x100_0000 + b[13] as int * 0x1_0000 + b[14] as int * 0x100
                + b[15] as int == g.avtp_timestamp
            &&& b.subrange(16, 20) == s.format_specific_data_2@
            &&& b[20] as int * 0x100 + b[21] as int == g.stream_data_length
            &&& b.subrange(22, 24) == s.format_specific_data_3@
            &&& b.subrange(24, b.len() as int) == s.stream_data_payload
        }),
{
    let b = stream_header_bytes(h);
    let g = h.generic;
    let s = h.specific;
    let id = stream_id_bytes(g.stream_id);
    let ts = g.avtp_timestamp;
    let len = g.stream_data_length;
    lemma_be32(ts, 0, 0, 0, 0);
    lemma_be16(len, 0, 0);
    lemma_be16(g.stream_id.unique_id, 0, 0);
    assert(b.subrange(4, 10) =~= g.stream_id.mac_address.0@);
    assert(b.subrange(16, 20) =~= s.format_specific_data_2@);
    assert(b.subrange(22, 24) =~= s.format_specific_data_3@);
    assert(b.subrange(24, b.len() as int) =~= s.stream_data_payload);
    assert(b[12] as int * 0x100_0000 + b[13] as int * 0x1_0000 + b[14] as int * 0x100 + b[15] as int
        == be32_value(b[12], b[13], b[14], b[15]));
    assert(b[20] as int * 0x100 + b[21] as int == be16_value(b[20], b[21]));
    assert(b[10] as int * 0x100 + b[11] as int == be16_value(b[10], b[11]));
}

/// Where decoding reads each field of a stream header: the sequence number from
/// byte 2, the `tu` bit and the reserved bits from byte 3, the `mr`, `tv` and
/// reserved bits from byte 1, the stream ID from bytes 4 to 11, the AVTP
/// timestamp big-endian from bytes 12 to 15, the payload length big-endian from
/// bytes 20 and 21, and that many payload bytes from byte 24 on.
pub proof fn lemma_stream_header_fields(c: CommonHeader, b: Seq<u8>)
    ensures
        parse_stream_after_common(c, b) matches Ok(h) ==> {
            &&& b.len() >= 24 + h.generic.stream_data_length
            &&& h.generic.common == c
            &&& h.generic.sequence_num == b[2]
            &&& h.generic.timestamp_uncertain == (b[3] % 2 == 1)
            &&& h.specific.format_specific_data_1 == b[3] / 2
            &&& h.generic.media_clock_restart == ((b[1] / 8) % 2 == 1)
            &&& h.generic.avtp_timestamp_valid == (b[1] % 2 == 1)
            &&& h.specific.format_specific_data == (b[1] / 2) % 4
            &&& h.generic.stream_id.mac_address.0@ == b.subrange(4, 10)
            &&& h.generic.stream_id.unique_id == b[10] as int * 0x100 + b[11] as int
            &&& h.generic.avtp_timestamp == b[12] as int * 0x100_0000 + b[13] as int * 0x1_0000
                + b[14] as int * 0x100 + b[15] as int
            &&& h.specific.format_specific_data_2@ == b.subrange(16, 20)
            &&& h.generic.stream_data_length == b[20] as int * 0x100 + b[21] as int
            &&& h.specific.format_specific_data_3@ == b.subrange(22, 24)
            &&& h.specific.stream_data_payload == b.subrange(24, 24 + h.generic.stream_data_length)
        },
{
    if let Ok(h) = parse_stream_after_common(c, b) {
        assert(h.generic.stream_id.mac_address.0@ =~= b.subrange(4, 10));
        assert(h.specific.format_specific_data_2@ =~= b.subrange(16, 20));
        assert(h.specific.format_specific_data_3@ =~= b.subrange(22, 24));
    }
}

} // verus!
