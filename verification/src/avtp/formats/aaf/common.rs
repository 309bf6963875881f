use vstd::prelude::*;

use crate::avtp::formats::aaf::aes3::{AafAes3, InvalidAes3Aaf, aes3_valid};
use crate::avtp::formats::aaf::pcm::{
    AafPcm, AafPcmView, InvalidPcmAaf, PcmFormat, lemma_pcm_specific_roundtrip, pcm_of_specific,
    pcm_valid, specific_of_pcm,
};
use crate::avtp::headers::common::bit;
use crate::avtp::headers::stream::{
    GenericStreamData, SpecificStreamData, StreamHeader, StreamHeaderView, SpecificStreamDataView,
};
use crate::avtp::subtype::Subtype;

verus! {

/// Errors of parsing or building an AAF payload.
#[derive(Debug, Clone, Copy, PartialEq, Eq)]
pub enum InvalidAaf {
    /// The header does not use the AAF subtype.
    InvalidSubtype(Subtype),
    /// The stream ID valid bit (the common header's flag bit) was 0.
    StreamIdInvalid,
    /// An AVTP version other than 0.
    UnsupportedVersion(u8),
    /// The format field holds a reserved value.
    FormatReserved(u8),
    /// An error of the format-specific parsing.
    FormatSpecificError(AafFormatSpecificError),
}

/// Errors of the parsing of a specific AAF format variant.
#[derive(Debug, Clone, Copy, PartialEq, Eq)]
pub enum AafFormatSpecificError {
    /// PCM audio format parsing error.
    Pcm(InvalidPcmAaf),
    /// AES3 audio format parsing error.
    Aes3(InvalidAes3Aaf),
}

/// Supported AAF payload format types.
#[allow(non_camel_case_types)]
#[derive(Debug, Clone, Copy, PartialEq, Eq, Structural)]
pub enum AafFormat {
    /// User specified format
    User,
    /// 32-bit floating point
    Float32Bit,
    /// 32-bit integer
    Int32Bit,
    /// 24-bit integer
    Int24Bit,
    /// 16-bit integer
    Int16Bit,
    /// 32-bit AES3 format
    AES3_32Bit,
}

/// The wire value of each format.
pub open spec fn aaf_format_byte(f: AafFormat) -> u8 {
    match f {
        AafFormat::User => 0x00,
        AafFormat::Float32Bit => 0x01,
        AafFormat::Int32Bit => 0x02,
        AafFormat::Int24Bit => 0x03,
        AafFormat::Int16Bit => 0x04,
        AafFormat::AES3_32Bit => 0x05,
    }
}

/// The format a wire value names, if any.
pub open spec fn aaf_format_from_byte(b: u8) -> Option<AafFormat> {
    if b == 0 {
        Some(AafFormat::User)
    } else if b == 1 {
        Some(AafFormat::Float32Bit)
    } else if b == 2 {
        Some(AafFormat::Int32Bit)
    } else if b == 3 {
        Some(AafFormat::Int24Bit)
    } else if b == 4 {
        Some(AafFormat::Int16Bit)
    } else if b == 5 {
        Some(AafFormat::AES3_32Bit)
    } else {
        None
    }
}

/// The PCM format an AAF format names, if it is one.
pub open spec fn pcm_format_of_aaf(f: AafFormat) -> Option<PcmFormat> {
    match f {
        AafFormat::User => Some(PcmFormat::User),
        AafFormat::Float32Bit => Some(PcmFormat::Float32Bit),
        AafFormat::Int32Bit => Some(PcmFormat::Int32Bit),
        AafFormat::Int24Bit => Some(PcmFormat::Int24Bit),
        AafFormat::Int16Bit => Some(PcmFormat::Int16Bit),
        AafFormat::AES3_32Bit => None,
    }
}

/// The AAF format of a PCM format.
pub open spec fn aaf_format_of_pcm(f: PcmFormat) -> AafFormat {
    match f {
        PcmFormat::User => AafFormat::User,
        PcmFormat::Float32Bit => AafFormat::Float32Bit,
        PcmFormat::Int32Bit => AafFormat::Int32Bit,
        PcmFormat::Int24Bit => AafFormat::Int24Bit,
        PcmFormat::Int16Bit => AafFormat::Int16Bit,
    }
}

/// A format's wire value names the format, and a value that names a format is
/// that format's wire value; a PCM format's AAF format names it back.
pub proof fn lemma_aaf_format_roundtrip(f: AafFormat, b: u8, p: PcmFormat)
    ensures
        aaf_format_from_byte(aaf_format_byte(f)) == Some(f),
        aaf_format_from_byte(b) matches Some(g) ==> aaf_format_byte(g) == b,
        pcm_format_of_aaf(aaf_format_of_pcm(p)) == Some(p),
{
}

impl AafFormat {
    /// The wire value of this format.
    pub fn as_u8(&self) -> (r: u8)
        ensures
            r == aaf_format_byte(*self),
    {
        match self {
            Self::User => 0x00,
            Self::Float32Bit => 0x01,
            Self::Int32Bit => 0x02,
            Self::Int24Bit => 0x03,
            Self::Int16Bit => 0x04,
            Self::AES3_32Bit => 0x05,
        }
    }

    /// The format a wire value names; reserved values are refused with the value.
    pub fn from_u8(b: u8) -> (r: Result<Self, u8>)
        ensures
            aaf_format_from_byte(b) matches Some(f) ==> r == Ok::<Self, u8>(f),
            aaf_format_from_byte(b) is None ==> r == Err::<Self, u8>(b),
    {
        match b {
            0 => Ok(Self::User),
            1 => Ok(Self::Float32Bit),
            2 => Ok(Self::Int32Bit),
            3 => Ok(Self::Int24Bit),
            4 => Ok(Self::Int16Bit),
            5 => Ok(Self::AES3_32Bit),
            _ => Err(b),
        }
    }

    /// The PCM format this format names, if it is one.
    pub fn to_pcm(&self) -> (r: Option<PcmFormat>)
        ensures
            r == pcm_format_of_aaf(*self),
    {
        match self {
            Self::User => Some(PcmFormat::User),
            Self::Float32Bit => Some(PcmFormat::Float32Bit),
            Self::Int32Bit => Some(PcmFormat::Int32Bit),
            Self::Int24Bit => Some(PcmFormat::Int24Bit),
            Self::Int16Bit => Some(PcmFormat::Int16Bit),
            Self::AES3_32Bit => None,
        }
    }

    /// The AAF format of a PCM format.
    pub fn from_pcm(f: PcmFormat) -> (r: Self)
        ensures
            r == aaf_format_of_pcm(f),
    {
        match f {
            PcmFormat::User => Self::User,
            PcmFormat::Float32Bit => Self::Float32Bit,
            PcmFormat::Int32Bit => Self::Int32Bit,
            PcmFormat::Int24Bit => Self::Int24Bit,
            PcmFormat::Int16Bit => Self::Int16Bit,
        }
    }
}

/// Raw AAF format-specific fields, between the wire layout and a format
/// variant's interpretation. Field names follow the specification.
#[derive(Debug, Clone, PartialEq, Eq)]
pub struct AafSpecificData {
    /// Format identifier determining how the payload is interpreted.
    pub format: AafFormat,
    /// First format-specific data block.
    pub aaf_format_specific_data_1: [u8; 3],
    /// Second format-specific data block (3 bits on the wire).
    pub asfd: u8,
    /// Third format-specific data block.
    pub aaf_format_specific_data_2: u8,
    /// Raw payload containing audio samples or encoded data.
    pub aaf_format_specific_payload: Vec<u8>,
}

/// Model of [`AafSpecificData`].
pub struct AafSpecificDataView {
    pub format: AafFormat,
    pub aaf_format_specific_data_1: Seq<u8>,
    pub asfd: u8,
    pub aaf_format_specific_data_2: u8,
    pub aaf_format_specific_payload: Seq<u8>,
}

impl View for AafSpecificData {
    type V = AafSpecificDataView;

    open spec fn view(&self) -> AafSpecificDataView {
        AafSpecificDataView {
            format: self.format,
            aaf_format_specific_data_1: self.aaf_format_specific_data_1@,
            asfd: self.asfd,
            aaf_format_specific_data_2: self.aaf_format_specific_data_2,
            aaf_format_specific_payload: self.aaf_format_specific_payload@,
        }
    }
}

/// AAF payload variants by audio encoding.
#[derive(Debug, PartialEq, Eq)]
pub enum AafVariant {
    /// Uncompressed PCM audio.
    Pcm(AafPcm),
    /// AES3 formatted audio data.
    Aes3(AafAes3),
}

/// Model of [`AafVariant`].
pub enum AafVariantView {
    Pcm(AafPcmView),
    Aes3(AafSpecificDataView),
}

impl View for AafVariant {
    type V = AafVariantView;

    open spec fn view(&self) -> AafVariantView {
        match self {
            AafVariant::Pcm(p) => AafVariantView::Pcm(p@),
            AafVariant::Aes3(a) => AafVariantView::Aes3(a@),
        }
    }
}

/// Whether a variant model describes a valid variant.
pub open spec fn variant_valid(v: AafVariantView) -> bool {
    match v {
        AafVariantView::Pcm(p) => pcm_valid(p),
        AafVariantView::Aes3(d) => aes3_valid(d),
    }
}

/// The variant that raw data is interpreted as, or why it cannot be.
pub open spec fn variant_of_specific(d: AafSpecificDataView) -> Result<
    AafVariantView,
    AafFormatSpecificError,
> {
    if d.format == AafFormat::AES3_32Bit {
        Ok(AafVariantView::Aes3(d))
    } else {
        match pcm_of_specific(d) {
            Ok(p) => Ok(AafVariantView::Pcm(p)),
            Err(e) => Err(AafFormatSpecificError::Pcm(e)),
        }
    }
}

/// The raw data of a variant.
pub open spec fn specific_of_variant(v: AafVariantView) -> AafSpecificDataView {
    match v {
        AafVariantView::Pcm(p) => specific_of_pcm(p),
        AafVariantView::Aes3(d) => d,
    }
}

impl AafVariant {
    /// Interprets raw format-specific data by its format field.
    pub(crate) fn try_from_specific(value: AafSpecificData) -> (r: Result<Self, AafFormatSpecificError>)
        requires
            value.asfd < 8,
        ensures
            match (r, variant_of_specific(value@)) {
                (Ok(a), Ok(v)) => a@ == v,
                (Err(e), Err(k)) => e == k,
                _ => false,
            },
    {
        match value.format {
            AafFormat::User
            | AafFormat::Float32Bit
            | AafFormat::Int32Bit
            | AafFormat::Int24Bit
            | AafFormat::Int16Bit => match AafPcm::from_specific(value) {
                Ok(p) => Ok(Self::Pcm(p)),
                Err(e) => Err(AafFormatSpecificError::Pcm(e)),
            },
            AafFormat::AES3_32Bit => match AafAes3::from_specific(value) {
                Ok(a) => Ok(Self::Aes3(a)),
                Err(e) => Err(AafFormatSpecificError::Aes3(e)),
            },
        }
    }

    /// Every variant value is valid.
    fn lemma_valid(&self)
        ensures
            variant_valid(self@),
    {
        match self {
            Self::Pcm(p) => p.lemma_valid(),
            Self::Aes3(a) => a.lemma_valid(),
        }
    }

    /// Collapses the variant into raw format-specific data.
    pub(crate) fn into_specific(self) -> (r: AafSpecificData)
        ensures
            r@ == specific_of_variant(self@),
            r.asfd < 8,
    {
        match self {
            Self::Pcm(data) => data.into_specific(),
            Self::Aes3(data) => data.into_specific(),
        }
    }
}

/// Why stream data cannot carry AAF: another subtype, an invalid stream ID, or a
/// version other than 0 (checked in that order).
pub open spec fn aaf_stream_data_error(g: GenericStreamData) -> Option<InvalidAaf> {
    if g.common.subtype != Subtype::AAF {
        Some(InvalidAaf::InvalidSubtype(g.common.subtype))
    } else if !g.common.header_specific_bit {
        Some(InvalidAaf::StreamIdInvalid)
    } else if g.common.version != 0 {
        Some(InvalidAaf::UnsupportedVersion(g.common.version))
    } else {
        None
    }
}

/// Model of [`Aaf`].
pub struct AafView {
    pub stream_data: GenericStreamData,
    pub format_data: AafVariantView,
    pub sparse_timestamp: bool,
    pub event_flags: u8,
}

/// Whether the values make a valid AAF payload.
pub open spec fn aaf_valid(a: AafView) -> bool {
    &&& aaf_stream_data_error(a.stream_data) is None
    &&& variant_valid(a.format_data)
    &&& a.event_flags < 16
}

/// AVTP Audio Format (AAF) payload: generic stream metadata and format-specific
/// audio data.
#[derive(Debug, PartialEq, Eq)]
pub struct Aaf {
    stream_data: GenericStreamData,
    format_data: AafVariant,
    sparse_timestamp: bool,
    event_flags: u8,
}

impl View for Aaf {
    type V = AafView;

    closed spec fn view(&self) -> AafView {
        AafView {
            stream_data: self.stream_data,
            format_data: self.format_data@,
            sparse_timestamp: self.sparse_timestamp,
            event_flags: self.event_flags,
        }
    }
}

/// The AAF payload carried by a stream header, or why there is none.
pub open spec fn aaf_of_header(h: StreamHeaderView) -> Result<AafView, InvalidAaf> {
    match aaf_stream_data_error(h.generic) {
        Some(e) => Err(e),
        None => {
            let f2 = h.specific.format_specific_data_2;
            let x = h.specific.format_specific_data_3[0];
            let y = h.specific.format_specific_data_3[1];
            match aaf_format_from_byte(f2[0]) {
                None => Err(InvalidAaf::FormatReserved(f2[0])),
                Some(format) => {
                    let d = AafSpecificDataView {
                        format,
                        aaf_format_specific_data_1: seq![f2[1], f2[2], f2[3]],
                        asfd: (x / 32) as u8,
                        aaf_format_specific_data_2: y,
                        aaf_format_specific_payload: h.specific.stream_data_payload,
                    };
                    match variant_of_specific(d) {
                        Err(e) => Err(InvalidAaf::FormatSpecificError(e)),
                        Ok(v) => Ok(
                            AafView {
                                stream_data: h.generic,
                                format_data: v,
                                sparse_timestamp: (x / 16) % 2 == 1,
                                event_flags: (x % 16) as u8,
                            },
                        ),
                    }
                },
            }
        },
    }
}

/// The stream header that carries an AAF payload: the AAF's stream data as it
/// stands (its length field included), the format fields, and zero reserved
/// stream fields.
pub open spec fn header_of_aaf(a: AafView) -> StreamHeaderView {
    let d = specific_of_variant(a.format_data);
    StreamHeaderView {
        generic: a.stream_data,
        specific: SpecificStreamDataView {
            format_specific_data: 0,
            format_specific_data_1: 0,
            format_specific_data_2: [
                aaf_format_byte(d.format),
                d.aaf_format_specific_data_1[0],
                d.aaf_format_specific_data_1[1],
                d.aaf_format_specific_data_1[2],
            ],
            format_specific_data_3: [
                (d.asfd * 32 + bit(a.sparse_timestamp) * 16 + a.event_flags) as u8,
                d.aaf_format_specific_data_2,
            ],
            stream_data_payload: d.aaf_format_specific_payload,
        },
    }
}

/// The number of payload bytes an AAF payload carries.
pub open spec fn aaf_payload_len(a: AafView) -> int {
    specific_of_variant(a.format_data).aaf_format_specific_payload.len() as int
}

impl Aaf {
    #[verifier::type_invariant]
    spec fn valid(self) -> bool {
        aaf_valid(self@)
    }

    /// Constructs an AAF payload after checking that the stream data suits AAF
    /// (the AAF subtype, a valid stream ID and version 0).
    pub fn new(
        stream_data: GenericStreamData,
        format_data: AafVariant,
        sparse_timestamp: bool,
        event_flags: u8,
    ) -> (r: Result<Self, InvalidAaf>)
        requires
            event_flags < 16,
        ensures
            match aaf_stream_data_error(stream_data) {
                Some(e) => r == Err::<Self, InvalidAaf>(e),
                None => r matches Ok(a) && a@ == (AafView {
                    stream_data,
                    format_data: format_data@,
                    sparse_timestamp,
                    event_flags,
                }),
            },
    {
        Self::validate_stream_data(&stream_data)?;
        format_data.lemma_valid();
        Ok(Self { stream_data, format_data, sparse_timestamp, event_flags })
    }

    /// Checks the stream data against AAF's expectations.
    fn validate_stream_data(stream_data: &GenericStreamData) -> (r: Result<(), InvalidAaf>)
        ensures
            match aaf_stream_data_error(*stream_data) {
                Some(e) => r == Err::<(), InvalidAaf>(e),
                None => r is Ok,
            },
    {
        if stream_data.common.subtype != Subtype::AAF {
            return Err(InvalidAaf::InvalidSubtype(stream_data.common.subtype));
        }
        if !stream_data.stream_id_valid() {
            return Err(InvalidAaf::StreamIdInvalid);
        }
        if stream_data.common.version != 0 {
            return Err(InvalidAaf::UnsupportedVersion(stream_data.common.version));
        }
        Ok(())
    }

    /// Replaces the stream data after the same checks as [`Self::new`]; on error the
    /// payload is unchanged.
    pub fn set_stream_data(&mut self, stream_data: GenericStreamData) -> (r: Result<(), InvalidAaf>)
        ensures
            match aaf_stream_data_error(stream_data) {
                Some(e) => r == Err::<(), InvalidAaf>(e) && final(self)@ == old(self)@,
                None => r is Ok && final(self)@ == (AafView { stream_data, ..old(self)@ }),
            },
    {
        proof {
            use_type_invariant(&*self);
        }
        Self::validate_stream_data(&stream_data)?;
        self.stream_data = stream_data;
        Ok(())
    }

    /// Generic stream-related fields.
    pub fn stream_data(&self) -> (r: &GenericStreamData)
        ensures
            *r == self@.stream_data,
    {
        &self.stream_data
    }

    /// The format variant data.
    pub fn format_data(&self) -> (r: &AafVariant)
        ensures
            r@ == self@.format_data,
    {
        &self.format_data
    }

    /// The sparse timestamping mode flag (`sp`).
    pub fn sparse_timestamp(&self) -> (r: bool)
        ensures
            r == self@.sparse_timestamp,
    {
        self.sparse_timestamp
    }

    /// The event flags (`evt`, 4 bits).
    pub fn event_flags(&self) -> (r: u8)
        ensures
            r == self@.event_flags,
            r < 16,
    {
        proof {
            use_type_invariant(self);
        }
        self.event_flags
    }

    /// Interprets a stream header as an AAF payload; reserved stream fields are
    /// ignored.
    pub fn try_from_stream_header(stream_header: StreamHeader) -> (r: Result<Self, InvalidAaf>)
        ensures
            match (r, aaf_of_header(stream_header@)) {
                (Ok(a), Ok(v)) => a@ == v,
                (Err(e), Err(k)) => e == k,
                _ => false,
            },
    {
        Self::validate_stream_data(&stream_header.generic)?;
        let f2 = stream_header.specific.format_specific_data_2;
        let x = stream_header.specific.format_specific_data_3[0];
        let y = stream_header.specific.format_specific_data_3[1];
        let format = match AafFormat::from_u8(f2[0]) {
            Ok(f) => f,
            Err(n) => return Err(InvalidAaf::FormatReserved(n)),
        };
        let generic_fmt_data = AafSpecificData {
            format,
            aaf_format_specific_data_1: [f2[1], f2[2], f2[3]],
            asfd: x / 32,
            aaf_format_specific_data_2: y,
            aaf_format_specific_payload: stream_header.specific.stream_data_payload,
        };
        assert(generic_fmt_data@.aaf_format_specific_data_1 =~= seq![f2[1], f2[2], f2[3]]);
        let format_data = match AafVariant::try_from_specific(generic_fmt_data) {
            Ok(v) => v,
            Err(e) => return Err(InvalidAaf::FormatSpecificError(e)),
        };
        Ok(
            Self {
                stream_data: stream_header.generic,
                format_data,
                sparse_timestamp: (x / 16) % 2 == 1,
                event_flags: x % 16,
            },
        )
    }

    /// Builds the stream header that carries this payload (see [`header_of_aaf`]).
    ///
    /// The payload must fit the 16-bit length field, which PCM payloads always do.
    pub fn into_stream_header(self) -> (r: StreamHeader)
        requires
            aaf_payload_len(self@) <= u16::MAX,
        ensures
            r@ == header_of_aaf(self@),
    {
        proof {
            use_type_invariant(&self);
        }
        let sparse: u8 = if self.sparse_timestamp { 16 } else { 0 };
        let d = self.format_data.into_specific();
        let fsd3 = [d.asfd * 32 + sparse + self.event_flags, d.aaf_format_specific_data_2];
        let fsd2 = [
            d.format.as_u8(),
            d.aaf_format_specific_data_1[0],
            d.aaf_format_specific_data_1[1],
            d.aaf_format_specific_data_1[2],
        ];
        StreamHeader {
            generic: self.stream_data,
            specific: SpecificStreamData {
                format_specific_data: 0,
                format_specific_data_1: 0,
                format_specific_data_2: fsd2,
                format_specific_data_3: fsd3,
                stream_data_payload: d.aaf_format_specific_payload,
            },
        }
    }
}

/// An AAF payload carried in a stream header is read back from that header
/// unchanged, every field of the header fits its width, and the header's length
/// field agrees with its payload exactly when the AAF's own length field does.
pub proof fn lemma_aaf_header_roundtrip(a: AafView)
    requires
        aaf_valid(a),
    ensures
        aaf_of_header(header_of_aaf(a)) == Ok::<AafView, InvalidAaf>(a),
        crate::avtp::headers::stream::stream_fits(header_of_aaf(a)),
        crate::avtp::headers::stream::stream_length_consistent(header_of_aaf(a)) <==> a.stream_data.stream_data_length
            == aaf_payload_len(a),
{
    let h = header_of_aaf(a);
    let d = specific_of_variant(a.format_data);
    let x = h.specific.format_specific_data_3[0] as int;
    assert(x == d.asfd * 32 + bit(a.sparse_timestamp) * 16 + a.event_flags) by {
        match a.format_data {
            AafVariantView::Pcm(p) => {},
            AafVariantView::Aes3(e) => {},
        }
    }
    assert(d.asfd < 8) by {
        match a.format_data {
            AafVariantView::Pcm(p) => {},
            AafVariantView::Aes3(e) => {},
        }
    }
    assert(x / 32 == d.asfd && (x / 16) % 2 == bit(a.sparse_timestamp) && x % 16 == a.event_flags)
        by (nonlinear_arith)
        requires
            x == d.asfd * 32 + bit(a.sparse_timestamp) * 16 + a.event_flags,
            0 <= d.asfd < 8,
            0 <= bit(a.sparse_timestamp) <= 1,
            0 <= a.event_flags < 16,
    ;
    let f2 = h.specific.format_specific_data_2;
    let d2 = AafSpecificDataView {
        format: d.format,
        aaf_format_specific_data_1: seq![f2[1], f2[2], f2[3]],
        asfd: (x / 32) as u8,
        aaf_format_specific_data_2: h.specific.format_specific_data_3[1],
        aaf_format_specific_payload: h.specific.stream_data_payload,
    };
    match a.format_data {
        AafVariantView::Pcm(p) => {
            lemma_pcm_specific_roundtrip(p);
            assert(d2.aaf_format_specific_data_1 =~= d.aaf_format_specific_data_1);
            assert(d2 == d);
        },
        AafVariantView::Aes3(e) => {
            assert(d2.aaf_format_specific_data_1 =~= d.aaf_format_specific_data_1);
            assert(d2 == d);
        },
    }
}

} // verus!
