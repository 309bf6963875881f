use vstd::prelude::*;

use crate::avtp::headers::alternative::{
    AlternativeHeader, AlternativeHeaderView, alternative_header_bytes, alternative_padding_ok,
};
use crate::avtp::headers::common::{CommonHeader, common_fits, parse_common};
use crate::avtp::headers::control::{
    ControlHeader, ControlHeaderView, control_fits, control_header_bytes,
    control_length_consistent, lemma_control_decode_encode, lemma_control_encode_decode,
    parse_control, parse_control_after_common,
};
use crate::avtp::headers::stream::{
    StreamDataError, StreamHeader, StreamHeaderView, lemma_stream_decode_encode,
    lemma_stream_encode_decode, parse_stream, parse_stream_after_common, stream_fits,
    stream_header_bytes, stream_length_consistent,
};
use crate::avtp::headers::HeaderType;
use crate::avtp::subtype::{
    IncompatibleSubtype, Subtype, UnknownSubtype, header_type_of, subtype_from_byte,
};
use crate::io::enc_dec::{IOWrapError, IoError};

verus! {

/// Errors specific to AVTPDU decoding and encoding.
#[derive(Debug, Clone, Copy, PartialEq, Eq)]
pub enum AvtpduError {
    UnknownSubtype(UnknownSubtype),
    IncompatibleSubtype(IncompatibleSubtype),
    StreamHeaderError(StreamDataError),
}

/// An AVTP data unit in one of the three header layouts.
#[derive(Debug, Clone)]
pub enum Avtpdu {
    Stream(StreamHeader),
    Control(ControlHeader),
    Alternative(AlternativeHeader),
}

/// Model of [`Avtpdu`].
pub enum AvtpduView {
    Stream(StreamHeaderView),
    Control(ControlHeaderView),
    Alternative(AlternativeHeaderView),
}

impl View for Avtpdu {
    type V = AvtpduView;

    open spec fn view(&self) -> AvtpduView {
        match self {
            Avtpdu::Stream(h) => AvtpduView::Stream(h@),
            Avtpdu::Control(h) => AvtpduView::Control(h@),
            Avtpdu::Alternative(h) => AvtpduView::Alternative(h@),
        }
    }
}

/// The common header of a data unit.
pub open spec fn avtpdu_common(v: AvtpduView) -> CommonHeader {
    match v {
        AvtpduView::Stream(h) => h.generic.common,
        AvtpduView::Control(h) => h.common,
        AvtpduView::Alternative(h) => h.common,
    }
}

/// The header layout of a data unit.
pub open spec fn avtpdu_header_type(v: AvtpduView) -> HeaderType {
    match v {
        AvtpduView::Stream(_) => HeaderType::Stream,
        AvtpduView::Control(_) => HeaderType::Control,
        AvtpduView::Alternative(_) => HeaderType::Alternative,
    }
}

/// Whether the subtype belongs to the layout it is carried in.
pub open spec fn avtpdu_subtype_compatible(v: AvtpduView) -> bool {
    header_type_of(avtpdu_common(v).subtype) == avtpdu_header_type(v)
}

/// Whether every field fits its bit width on the wire.
pub open spec fn avtpdu_fits(v: AvtpduView) -> bool {
    match v {
        AvtpduView::Stream(h) => stream_fits(h),
        AvtpduView::Control(h) => control_fits(h),
        AvtpduView::Alternative(h) => common_fits(h.common),
    }
}

/// The documented preconditions of encoding: payload lengths match their length
/// fields, and an alternative payload ends in its padding nibble.
pub open spec fn avtpdu_encodable(v: AvtpduView) -> bool {
    match v {
        AvtpduView::Stream(h) => stream_length_consistent(h),
        AvtpduView::Control(h) => control_length_consistent(h),
        AvtpduView::Alternative(h) => alternative_padding_ok(h),
    }
}

/// The wire bytes of a data unit.
pub open spec fn avtpdu_bytes(v: AvtpduView) -> Seq<u8> {
    match v {
        AvtpduView::Stream(h) => stream_header_bytes(h),
        AvtpduView::Control(h) => control_header_bytes(h),
        AvtpduView::Alternative(h) => alternative_header_bytes(h),
    }
}

/// The outcome of [`Avtpdu::write`].
pub open spec fn write_outcome(v: AvtpduView) -> Result<(), IOWrapError<AvtpduError>> {
    if !avtpdu_subtype_compatible(v) {
        Err(
            IOWrapError::Specific(
                AvtpduError::IncompatibleSubtype(
                    IncompatibleSubtype {
                        subtype: avtpdu_common(v).subtype,
                        header_type: avtpdu_header_type(v),
                    },
                ),
            ),
        )
    } else if !avtpdu_fits(v) {
        Err(IOWrapError::Io(IoError::InvalidInput))
    } else {
        Ok(())
    }
}

/// Whether decoding the bytes stays clear of the alternative layouts, whose
/// decoding is not supported.
pub open spec fn avtpdu_decodable(b: Seq<u8>) -> bool {
    b.len() >= 2 ==> match subtype_from_byte(b[0]) {
        Some(s) => header_type_of(s) != HeaderType::Alternative,
        None => true,
    }
}

/// The data unit at the start of the bytes, or why there is none.
pub open spec fn parse_avtpdu(b: Seq<u8>) -> Result<AvtpduView, IOWrapError<AvtpduError>> {
    match parse_common(b) {
        Err(IOWrapError::Io(k)) => Err(IOWrapError::Io(k)),
        Err(IOWrapError::Specific(u)) => Err(IOWrapError::Specific(AvtpduError::UnknownSubtype(u))),
        Ok(c) => match header_type_of(c.subtype) {
            HeaderType::Stream => match parse_stream_after_common(c, b) {
                Ok(h) => Ok(AvtpduView::Stream(h)),
                Err(k) => Err(IOWrapError::Io(k)),
            },
            HeaderType::Control => match parse_control_after_common(c, b) {
                Ok(h) => Ok(AvtpduView::Control(h)),
                Err(k) => Err(IOWrapError::Io(k)),
            },
            HeaderType::Alternative => Err(IOWrapError::Io(IoError::InvalidInput)),
        },
    }
}

impl Avtpdu {
    /// The header layout of this data unit.
    pub fn header_type(&self) -> (r: HeaderType)
        ensures
            r == avtpdu_header_type(self@),
    {
        match self {
            Self::Stream(_) => HeaderType::Stream,
            Self::Control(_) => HeaderType::Control,
            Self::Alternative(_) => HeaderType::Alternative,
        }
    }

    /// The common header shared by all header layouts.
    pub fn common_header(&self) -> (r: &CommonHeader)
        ensures
            *r == avtpdu_common(self@),
    {
        match self {
            Self::Stream(h) => &h.generic.common,
            Self::Control(h) => &h.common,
            Self::Alternative(h) => &h.common,
        }
    }

    /// The subtype from the common header.
    pub fn subtype(&self) -> (r: Subtype)
        ensures
            r == avtpdu_common(self@).subtype,
    {
        self.common_header().subtype
    }

    /// Whether the payload lengths agree with their length fields (and a nonempty
    /// alternative payload ends in a zero padding nibble), which [`Avtpdu::write`]
    /// requires.
    pub fn is_encodable(&self) -> (r: bool)
        ensures
            r == avtpdu_encodable(self@),
    {
        match self {
            Self::Stream(h) => h.specific.stream_data_payload.len()
                == h.generic.stream_data_length as usize,
            Self::Control(h) => h.control_data_payload.len() == h.control_data_length as usize,
            Self::Alternative(h) => {
                let p = &h.alternative_data_payload;
                p.len() == 0 || p[p.len() - 1] % 16 == 0
            },
        }
    }

    /// Checks that the subtype belongs to this data unit's header layout.
    fn validate_subtype(&self) -> (r: Result<(), IncompatibleSubtype>)
        ensures
            r is Ok <==> avtpdu_subtype_compatible(self@),
            r matches Err(e) ==> e == (IncompatibleSubtype {
                subtype: avtpdu_common(self@).subtype,
                header_type: avtpdu_header_type(self@),
            }),
    {
        let subtype = self.subtype();
        let header_type = self.header_type();
        if subtype.header_type() != header_type {
            return Err(IncompatibleSubtype { subtype, header_type });
        }
        Ok(())
    }

    /// Appends the wire bytes of this data unit.
    ///
    /// Fails, writing nothing, when the subtype does not belong to the header layout
    /// ([`IOWrapError::Specific`]) or a field does not fit its bit width
    /// ([`IOWrapError::Io`]).
    pub fn write(&self, writer: &mut Vec<u8>) -> (r: Result<(), IOWrapError<AvtpduError>>)
        requires
            avtpdu_encodable(self@),
        ensures
            r == write_outcome(self@),
            r is Ok ==> final(writer)@ == old(writer)@ + avtpdu_bytes(self@),
            r is Err ==> final(writer)@ == old(writer)@,
    {
        if let Err(exc) = self.validate_subtype() {
            return Err(IOWrapError::Specific(AvtpduError::IncompatibleSubtype(exc)));
        }
        let res = match self {
            Self::Stream(h) => h.encode(writer),
            Self::Control(h) => h.encode(writer),
            Self::Alternative(h) => h.encode(writer),
        };
        match res {
            Ok(()) => Ok(()),
            Err(k) => Err(IOWrapError::Io(k)),
        }
    }

    /// Reads (decodes) the data unit at the start of the bytes; bytes after it are
    /// ignored.
    ///
    /// Decoding the alternative layouts is not supported, so the bytes must not
    /// start with an alternative-layout common header.
    pub fn read(reader: &[u8]) -> (r: Result<Self, IOWrapError<AvtpduError>>)
        requires
            avtpdu_decodable(reader@),
        ensures
            match (r, parse_avtpdu(reader@)) {
                (Ok(p), Ok(v)) => p@ == v,
                (Err(e), Err(k)) => e == k,
                _ => false,
            },
    {
        let common = match CommonHeader::decode(reader) {
            Ok(c) => c,
            Err(IOWrapError::Io(k)) => return Err(IOWrapError::Io(k)),
            Err(IOWrapError::Specific(u)) => return Err(
                IOWrapError::Specific(AvtpduError::UnknownSubtype(u)),
            ),
        };
        match common.subtype.header_type() {
            HeaderType::Stream => match StreamHeader::decode_after_common(common, reader) {
                Ok(h) => Ok(Self::Stream(h)),
                Err(k) => Err(IOWrapError::Io(k)),
            },
            HeaderType::Control => match ControlHeader::decode_after_common(common, reader) {
                Ok(h) => Ok(Self::Control(h)),
                Err(k) => Err(IOWrapError::Io(k)),
            },
            HeaderType::Alternative => {
                proof {
                    assert(false);
                }
                Err(IOWrapError::Io(IoError::InvalidInput))
            },
        }
    }
}

/// Reading back the bytes of a stream or control data unit, followed by
/// anything, gives the data unit back.
pub proof fn lemma_avtpdu_read_write(v: AvtpduView, rest: Seq<u8>)
    requires
        !(v is Alternative),
        write_outcome(v) is Ok,
        avtpdu_encodable(v),
    ensures
        avtpdu_decodable(avtpdu_bytes(v) + rest),
        parse_avtpdu(avtpdu_bytes(v) + rest) == Ok::<AvtpduView, IOWrapError<AvtpduError>>(v),
{
    match v {
        AvtpduView::Stream(h) => {
            lemma_stream_decode_encode(h, rest);
        },
        AvtpduView::Control(h) => {
            lemma_control_decode_encode(h, rest);
        },
        AvtpduView::Alternative(h) => {},
    }
}

/// A data unit that was read writes successfully, and its bytes are exactly the
/// bytes it was read from.
pub proof fn lemma_avtpdu_write_read(b: Seq<u8>)
    requires
        parse_avtpdu(b) is Ok,
    ensures
        write_outcome(parse_avtpdu(b)->Ok_0) is Ok,
        avtpdu_encodable(parse_avtpdu(b)->Ok_0),
        avtpdu_bytes(parse_avtpdu(b)->Ok_0) =~= b.subrange(
            0,
            avtpdu_bytes(parse_avtpdu(b)->Ok_0).len() as int,
        ),
{
    let c = parse_common(b)->Ok_0;
    match header_type_of(c.subtype) {
        HeaderType::Stream => {
            lemma_stream_encode_decode(b);
        },
        HeaderType::Control => {
            lemma_control_encode_decode(b);
        },
        HeaderType::Alternative => {},
    }
}

} // verus!
