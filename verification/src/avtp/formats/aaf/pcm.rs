use vstd::prelude::*;

use crate::avtp::formats::aaf::common::{
    AafFormat, AafSpecificData, AafSpecificDataView, aaf_format_of_pcm, pcm_format_of_aaf,
};
use crate::io::bytes::copy_range;

verus! {

/// Errors that can occur when parsing or building PCM AAF payload data.
#[derive(Debug, Clone, Copy, PartialEq, Eq)]
pub enum InvalidPcmAaf {
    /// The AAF format field does not name a PCM format.
    NonPcmFormat(AafFormat),
    /// The nominal sample rate field (4 bits) holds a reserved value.
    SampleRateReserved(u8),
    /// The bit depth does not suit the PCM format.
    BitDepthInvalid(u8, PcmFormat),
    /// A bit depth of zero.
    BitDepthZero,
    /// A channels-per-frame value of zero.
    ChannelsPerFrameZero,
    /// The payload is not a whole number of sample frames.
    PayloadSizeInvalid { payload_size: usize, frame_size: usize },
    /// The payload holds more bytes than the 16-bit length field can describe.
    PayloadTooLarge(usize),
}

/// PCM-compatible subset of [`AafFormat`].
#[derive(Debug, Clone, Copy, PartialEq, Eq, Structural)]
pub enum PcmFormat {
    /// User-defined format (interpretation is application-specific).
    User,
    /// 32-bit IEEE floating point samples.
    Float32Bit,
    /// 32-bit signed integer samples.
    Int32Bit,
    /// 24-bit signed integer samples.
    Int24Bit,
    /// 16-bit signed integer samples.
    Int16Bit,
}

/// Size in bits of one sample word of a PCM format (`None` for user formats).
pub open spec fn word_size_of(f: PcmFormat) -> Option<u8> {
    match f {
        PcmFormat::User => None,
        PcmFormat::Float32Bit | PcmFormat::Int32Bit => Some(32),
        PcmFormat::Int24Bit => Some(24),
        PcmFormat::Int16Bit => Some(16),
    }
}

impl PcmFormat {
    /// Returns the size of a single sample word in bits (`None` for
    /// [`Self::User`]).
    pub fn word_size(&self) -> (r: Option<u8>)
        ensures
            r == word_size_of(*self),
    {
        match self {
            Self::User => None,
            Self::Float32Bit | Self::Int32Bit => Some(32),
            Self::Int24Bit => Some(24),
            Self::Int16Bit => Some(16),
        }
    }
}

/// Nominal sample rate of the PCM stream, encoded in 4 bits.
#[derive(Debug, Clone, Copy, PartialEq, Eq, Structural)]
pub enum SampleRate {
    UserSpecified,
    KHz8,
    KHz16,
    KHz32,
    KHz44_1,
    KHz48,
    KHz88_2,
    KHz96,
    KHz176_4,
    KHz192,
    KHz24,
}

/// The 4-bit wire value of each sample rate.
pub open spec fn sample_rate_code(r: SampleRate) -> u8 {
    match r {
        SampleRate::UserSpecified => 0x0,
        SampleRate::KHz8 => 0x1,
        SampleRate::KHz16 => 0x2,
        SampleRate::KHz32 => 0x3,
        SampleRate::KHz44_1 => 0x4,
        SampleRate::KHz48 => 0x5,
        SampleRate::KHz88_2 => 0x6,
        SampleRate::KHz96 => 0x7,
        SampleRate::KHz176_4 => 0x8,
        SampleRate::KHz192 => 0x9,
        SampleRate::KHz24 => 0xA,
    }
}

/// The sample rate a 4-bit wire value names, if any.
pub open spec fn sample_rate_of_code(c: u8) -> Option<SampleRate> {
    if c == 0 {
        Some(SampleRate::UserSpecified)
    } else if c == 1 {
        Some(SampleRate::KHz8)
    } else if c == 2 {
        Some(SampleRate::KHz16)
    } else if c == 3 {
        Some(SampleRate::KHz32)
    } else if c == 4 {
        Some(SampleRate::KHz44_1)
    } else if c == 5 {
        Some(SampleRate::KHz48)
    } else if c == 6 {
        Some(SampleRate::KHz88_2)
    } else if c == 7 {
        Some(SampleRate::KHz96)
    } else if c == 8 {
        Some(SampleRate::KHz176_4)
    } else if c == 9 {
        Some(SampleRate::KHz192)
    } else if c == 10 {
        Some(SampleRate::KHz24)
    } else {
        None
    }
}

/// The rate in hertz of each sample rate (`None` when user-specified).
pub open spec fn sample_rate_hz(r: SampleRate) -> Option<usize> {
    match r {
        SampleRate::UserSpecified => None,
        SampleRate::KHz8 => Some(8_000),
        SampleRate::KHz16 => Some(16_000),
        SampleRate::KHz32 => Some(32_000),
        SampleRate::KHz44_1 => Some(44_100),
        SampleRate::KHz48 => Some(48_000),
        SampleRate::KHz88_2 => Some(88_200),
        SampleRate::KHz96 => Some(96_000),
        SampleRate::KHz176_4 => Some(176_400),
        SampleRate::KHz192 => Some(192_000),
        SampleRate::KHz24 => Some(24_000),
    }
}

/// A sample rate's wire value names the rate, and a value that names a rate is
/// that rate's wire value; a named rate in hertz names the rate back.
pub proof fn lemma_sample_rate_roundtrip(r: SampleRate, c: u8)
    ensures
        sample_rate_of_code(sample_rate_code(r)) == Some(r),
        sample_rate_of_code(c) matches Some(s) ==> sample_rate_code(s) == c,
        sample_rate_hz(r) matches Some(hz) ==> forall|s: SampleRate|
            sample_rate_hz(s) == Some(hz) ==> s == r,
{
}

/// The IEEE 1722 nominal sample rate codes (`nsr`): user-specified 0, 8 kHz 1,
/// 16 kHz 2, 32 kHz 3, 44.1 kHz 4, 48 kHz 5, 88.2 kHz 6, 96 kHz 7,
/// 176.4 kHz 8, 192 kHz 9, 24 kHz 10; the codes 11 to 15 are reserved. Each
/// rate is written with its code, and each code reads as its rate.
pub proof fn lemma_sample_rate_codes(r: SampleRate, c: u8)
    ensures
        sample_rate_hz(r) is None <==> sample_rate_code(r) == 0,
        sample_rate_hz(r) == Some(8_000usize) <==> sample_rate_code(r) == 1,
        sample_rate_hz(r) == Some(16_000usize) <==> sample_rate_code(r) == 2,
        sample_rate_hz(r) == Some(32_000usize) <==> sample_rate_code(r) == 3,
        sample_rate_hz(r) == Some(44_100usize) <==> sample_rate_code(r) == 4,
        sample_rate_hz(r) == Some(48_000usize) <==> sample_rate_code(r) == 5,
        sample_rate_hz(r) == Some(88_200usize) <==> sample_rate_code(r) == 6,
        sample_rate_hz(r) == Some(96_000usize) <==> sample_rate_code(r) == 7,
        sample_rate_hz(r) == Some(176_400usize) <==> sample_rate_code(r) == 8,
        sample_rate_hz(r) == Some(192_000usize) <==> sample_rate_code(r) == 9,
        sample_rate_hz(r) == Some(24_000usize) <==> sample_rate_code(r) == 10,
        sample_rate_of_code(c) is None <==> c > 10,
        sample_rate_of_code(c) matches Some(s) ==> sample_rate_code(s) == c,
        sample_rate_code(SampleRate::UserSpecified) == 0,
        sample_rate_code(SampleRate::KHz8) == 1,
        sample_rate_code(SampleRate::KHz16) == 2,
        sample_rate_code(SampleRate::KHz32) == 3,
        sample_rate_code(SampleRate::KHz44_1) == 4,
        sample_rate_code(SampleRate::KHz48) == 5,
        sample_rate_code(SampleRate::KHz88_2) == 6,
        sample_rate_code(SampleRate::KHz96) == 7,
        sample_rate_code(SampleRate::KHz176_4) == 8,
        sample_rate_code(SampleRate::KHz192) == 9,
        sample_rate_code(SampleRate::KHz24) == 10,
{
}

impl SampleRate {
    /// Returns the numeric sample rate in hertz (`None` if user-defined).
    pub fn rate(&self) -> (r: Option<usize>)
        ensures
            r == sample_rate_hz(*self),
    {
        match self {
            Self::UserSpecified => None,
            Self::KHz8 => Some(8_000),
            Self::KHz16 => Some(16_000),
            Self::KHz32 => Some(32_000),
            Self::KHz44_1 => Some(44_100),
            Self::KHz48 => Some(48_000),
            Self::KHz88_2 => Some(88_200),
            Self::KHz96 => Some(96_000),
            Self::KHz176_4 => Some(176_400),
            Self::KHz192 => Some(192_000),
            Self::KHz24 => Some(24_000),
        }
    }

    /// The named sample rate whose rate in hertz is `hz`, if any.
    pub fn from_hz(hz: u32) -> (r: Option<Self>)
        ensures
            r matches Some(s) ==> sample_rate_hz(s) == Some(hz as usize),
            r is None ==> forall|s: SampleRate| sample_rate_hz(s) != Some(hz as usize),
    {
        match hz {
            8_000 => Some(Self::KHz8),
            16_000 => Some(Self::KHz16),
            32_000 => Some(Self::KHz32),
            44_100 => Some(Self::KHz44_1),
            48_000 => Some(Self::KHz48),
            88_200 => Some(Self::KHz88_2),
            96_000 => Some(Self::KHz96),
            176_400 => Some(Self::KHz176_4),
            192_000 => Some(Self::KHz192),
            24_000 => Some(Self::KHz24),
            _ => None,
        }
    }

    /// The 4-bit wire value of this rate.
    pub fn code(&self) -> (r: u8)
        ensures
            r == sample_rate_code(*self),
    {
        match self {
            Self::UserSpecified => 0x0,
            Self::KHz8 => 0x1,
            Self::KHz16 => 0x2,
            Self::KHz32 => 0x3,
            Self::KHz44_1 => 0x4,
            Self::KHz48 => 0x5,
            Self::KHz88_2 => 0x6,
            Self::KHz96 => 0x7,
            Self::KHz176_4 => 0x8,
            Self::KHz192 => 0x9,
            Self::KHz24 => 0xA,
        }
    }

    /// The rate a 4-bit wire value names; reserved values are refused with the
    /// value itself.
    pub fn from_code(c: u8) -> (r: Result<Self, u8>)
        ensures
            sample_rate_of_code(c) matches Some(s) ==> r == Ok::<Self, u8>(s),
            sample_rate_of_code(c) is None ==> r == Err::<Self, u8>(c),
    {
        match c {
            0 => Ok(Self::UserSpecified),
            1 => Ok(Self::KHz8),
            2 => Ok(Self::KHz16),
            3 => Ok(Self::KHz32),
            4 => Ok(Self::KHz44_1),
            5 => Ok(Self::KHz48),
            6 => Ok(Self::KHz88_2),
            7 => Ok(Self::KHz96),
            8 => Ok(Self::KHz176_4),
            9 => Ok(Self::KHz192),
            10 => Ok(Self::KHz24),
            _ => Err(c),
        }
    }
}

/// Why a bit depth does not suit a format: zero, not 32 for floats, or wider
/// than the sample word.
pub open spec fn bit_depth_error(bit_depth: u8, format: PcmFormat) -> Option<InvalidPcmAaf> {
    if bit_depth == 0 {
        Some(InvalidPcmAaf::BitDepthZero)
    } else if format == PcmFormat::Float32Bit && bit_depth != 32 {
        Some(InvalidPcmAaf::BitDepthInvalid(bit_depth, format))
    } else if word_size_of(format) matches Some(w) && bit_depth > w {
        Some(InvalidPcmAaf::BitDepthInvalid(bit_depth, format))
    } else {
        None
    }
}

/// Bytes in one sample frame (one sample word per channel) of a sized format.
pub open spec fn frame_size(format: PcmFormat, channels: u16) -> int {
    match word_size_of(format) {
        Some(w) => (w / 8) as int * channels,
        None => 0,
    }
}

/// Why a payload length does not suit a PCM layout: more than `u16::MAX` bytes, or
/// not a whole number of frames of a sized format.
pub open spec fn payload_size_error(format: PcmFormat, len: int, channels: u16) -> Option<
    InvalidPcmAaf,
> {
    if len > u16::MAX {
        Some(InvalidPcmAaf::PayloadTooLarge(len as usize))
    } else if word_size_of(format) is Some && len % frame_size(format, channels) != 0 {
        Some(
            InvalidPcmAaf::PayloadSizeInvalid {
                payload_size: len as usize,
                frame_size: frame_size(format, channels) as usize,
            },
        )
    } else {
        None
    }
}

/// The first violation, in checking order, of the PCM layout rules by the given
/// values (bit depth, then channel count, then payload size).
pub open spec fn pcm_error(format: PcmFormat, channels: u16, bit_depth: u8, len: int) -> Option<
    InvalidPcmAaf,
> {
    if bit_depth_error(bit_depth, format) is Some {
        bit_depth_error(bit_depth, format)
    } else if channels == 0 {
        Some(InvalidPcmAaf::ChannelsPerFrameZero)
    } else {
        payload_size_error(format, len, channels)
    }
}

/// Model of [`AafPcm`].
pub struct AafPcmView {
    pub nominal_sample_rate: SampleRate,
    pub channels_per_frame: u16,
    pub format: PcmFormat,
    pub bit_depth: u8,
    pub payload: Seq<u8>,
}

/// Whether the values make a valid PCM payload description.
pub open spec fn pcm_valid(v: AafPcmView) -> bool {
    &&& v.channels_per_frame < 1024
    &&& pcm_error(v.format, v.channels_per_frame, v.bit_depth, v.payload.len() as int) is None
}

/// Parsed, validated representation of a PCM AAF payload.
#[derive(Debug, PartialEq, Eq)]
pub struct AafPcm {
    nominal_sample_rate: SampleRate,
    channels_per_frame: u16,
    format: PcmFormat,
    bit_depth: u8,
    payload: Vec<u8>,
}

impl View for AafPcm {
    type V = AafPcmView;

    closed spec fn view(&self) -> AafPcmView {
        AafPcmView {
            nominal_sample_rate: self.nominal_sample_rate,
            channels_per_frame: self.channels_per_frame,
            format: self.format,
            bit_depth: self.bit_depth,
            payload: self.payload@,
        }
    }
}

/// The 3 format-specific bytes that describe a PCM payload: the sample rate code
/// (4 bits), two reserved zero bits, the channel count (10 bits) and the bit depth.
pub open spec fn pcm_fsd1(v: AafPcmView) -> Seq<u8> {
    seq![
        (sample_rate_code(v.nominal_sample_rate) * 16 + v.channels_per_frame / 256) as u8,
        (v.channels_per_frame % 256) as u8,
        v.bit_depth,
    ]
}

/// The PCM description held in raw AAF format-specific data, or why there is none.
pub open spec fn pcm_of_specific(d: AafSpecificDataView) -> Result<AafPcmView, InvalidPcmAaf> {
    match pcm_format_of_aaf(d.format) {
        None => Err(InvalidPcmAaf::NonPcmFormat(d.format)),
        Some(format) => {
            let b = d.aaf_format_specific_data_1;
            let code = (b[0] / 16) as u8;
            let channels = ((b[0] % 4) * 256 + b[1]) as u16;
            let bit_depth = b[2];
            match sample_rate_of_code(code) {
                None => Err(InvalidPcmAaf::SampleRateReserved(code)),
                Some(rate) => match pcm_error(
                    format,
                    channels,
                    bit_depth,
                    d.aaf_format_specific_payload.len() as int,
                ) {
                    Some(e) => Err(e),
                    None => Ok(
                        AafPcmView {
                            nominal_sample_rate: rate,
                            channels_per_frame: channels,
                            format,
                            bit_depth,
                            payload: d.aaf_format_specific_payload,
                        },
                    ),
                },
            }
        },
    }
}

/// The raw AAF format-specific data describing a PCM payload (reserved fields
/// zero).
pub open spec fn specific_of_pcm(v: AafPcmView) -> AafSpecificDataView {
    AafSpecificDataView {
        format: aaf_format_of_pcm(v.format),
        aaf_format_specific_data_1: pcm_fsd1(v),
        asfd: 0,
        aaf_format_specific_data_2: 0,
        aaf_format_specific_payload: v.payload,
    }
}

impl AafPcm {
    #[verifier::type_invariant]
    pub(crate) closed spec fn valid(self) -> bool {
        pcm_valid(self@)
    }

    /// Every value satisfies the PCM layout rules.
    pub(crate) fn lemma_valid(&self)
        ensures
            pcm_valid(self@),
    {
        proof {
            use_type_invariant(self);
        }
    }

    /// Checks a bit depth against the format's constraints.
    fn validated_bit_depth(bit_depth: u8, format: PcmFormat) -> (r: Result<u8, InvalidPcmAaf>)
        ensures
            match bit_depth_error(bit_depth, format) {
                Some(e) => r == Err::<u8, InvalidPcmAaf>(e),
                None => r == Ok::<u8, InvalidPcmAaf>(bit_depth),
            },
    {
        if bit_depth == 0 {
            return Err(InvalidPcmAaf::BitDepthZero);
        }
        if format == PcmFormat::Float32Bit && bit_depth != 32 {
            return Err(InvalidPcmAaf::BitDepthInvalid(bit_depth, format));
        }
        if let Some(word_size_bits) = format.word_size() {
            if bit_depth > word_size_bits {
                return Err(InvalidPcmAaf::BitDepthInvalid(bit_depth, format));
            }
        }
        Ok(bit_depth)
    }

    /// Checks that the payload is a whole number of sample frames and fits the
    /// 16-bit length field.
    fn validate_payload_size(format: PcmFormat, payload_len: usize, channels_per_frame: u16) -> (r:
        Result<(), InvalidPcmAaf>)
        requires
            0 < channels_per_frame < 1024,
        ensures
            match payload_size_error(format, payload_len as int, channels_per_frame) {
                Some(e) => r == Err::<(), InvalidPcmAaf>(e),
                None => r is Ok,
            },
    {
        if payload_len > 0xFFFF {
            return Err(InvalidPcmAaf::PayloadTooLarge(payload_len));
        }
        if let Some(word_size_bits) = format.word_size() {
            assert(16 <= word_size_bits <= 32);
            let word_size_bytes = (word_size_bits / 8) as usize;
            let channels = channels_per_frame as usize;
            assert(0 < word_size_bytes * channels <= 4 * 1023) by (nonlinear_arith)
                requires
                    2 <= word_size_bytes <= 4,
                    1 <= channels <= 1023,
            ;
            let frame_size = word_size_bytes * channels;
            if payload_len % frame_size != 0 {
                return Err(
                    InvalidPcmAaf::PayloadSizeInvalid { payload_size: payload_len, frame_size },
                );
            }
        }
        Ok(())
    }

    /// Interprets raw AAF format-specific data as PCM; reserved fields are dropped.
    pub(crate) fn from_specific(data: AafSpecificData) -> (r: Result<Self, InvalidPcmAaf>)
        ensures
            match (r, pcm_of_specific(data@)) {
                (Ok(p), Ok(v)) => p@ == v,
                (Err(e), Err(k)) => e == k,
                _ => false,
            },
    {
        let format = match data.format.to_pcm() {
            Some(f) => f,
            None => return Err(InvalidPcmAaf::NonPcmFormat(data.format)),
        };
        let b = data.aaf_format_specific_data_1;
        let code = b[0] / 16;
        let channels_per_frame: u16 = ((b[0] % 4) as u16) * 256 + (b[1] as u16);
        let bit_depth = b[2];
        let nominal_sample_rate = match SampleRate::from_code(code) {
            Ok(r) => r,
            Err(c) => return Err(InvalidPcmAaf::SampleRateReserved(c)),
        };
        let bit_depth = Self::validated_bit_depth(bit_depth, format)?;
        if channels_per_frame == 0 {
            return Err(InvalidPcmAaf::ChannelsPerFrameZero);
        }
        Self::validate_payload_size(format, data.aaf_format_specific_payload.len(), channels_per_frame)?;
        Ok(
            Self {
                nominal_sample_rate,
                channels_per_frame,
                format,
                bit_depth,
                payload: data.aaf_format_specific_payload,
            },
        )
    }

    /// Collapses the PCM description into raw AAF format-specific data.
    pub(crate) fn into_specific(self) -> (r: AafSpecificData)
        ensures
            r@ == specific_of_pcm(self@),
    {
        proof {
            use_type_invariant(&self);
        }
        let b0 = self.nominal_sample_rate.code() * 16 + (self.channels_per_frame / 256) as u8;
        let b1 = (self.channels_per_frame % 256) as u8;
        let fsd1 = [b0, b1, self.bit_depth];
        let r = AafSpecificData {
            format: AafFormat::from_pcm(self.format),
            aaf_format_specific_data_1: fsd1,
            asfd: 0,
            aaf_format_specific_data_2: 0,
            aaf_format_specific_payload: self.payload,
        };
        assert(r@.aaf_format_specific_data_1 =~= pcm_fsd1(self@));
        r
    }

    /// Constructs a PCM AAF payload description, checking the bit depth against the
    /// format, that there is at least one channel, and that the payload is a whole
    /// number of sample frames of at most `u16::MAX` bytes.
    pub fn new(
        nominal_sample_rate: SampleRate,
        channels_per_frame: u16,
        format: PcmFormat,
        bit_depth: u8,
        payload: Vec<u8>,
    ) -> (r: Result<Self, InvalidPcmAaf>)
        requires
            channels_per_frame < 1024,
        ensures
            match pcm_error(format, channels_per_frame, bit_depth, payload@.len() as int) {
                Some(e) => r == Err::<Self, InvalidPcmAaf>(e),
                None => r matches Ok(p) && p@ == (AafPcmView {
                    nominal_sample_rate,
                    channels_per_frame,
                    format,
                    bit_depth,
                    payload: payload@,
                }),
            },
    {
        let bit_depth = Self::validated_bit_depth(bit_depth, format)?;
        if channels_per_frame == 0 {
            return Err(InvalidPcmAaf::ChannelsPerFrameZero);
        }
        Self::validate_payload_size(format, payload.len(), channels_per_frame)?;
        Ok(Self { nominal_sample_rate, channels_per_frame, format, bit_depth, payload })
    }

    /// Updates the nominal sample rate; the payload layout is unaffected.
    pub fn set_nominal_sample_rate(&mut self, rate: SampleRate)
        ensures
            final(self)@ == (AafPcmView { nominal_sample_rate: rate, ..old(self)@ }),
    {
        proof {
            use_type_invariant(&*self);
        }
        self.nominal_sample_rate = rate;
    }

    /// The nominal sample rate (`nsr`).
    pub fn nominal_sample_rate(&self) -> (r: SampleRate)
        ensures
            r == self@.nominal_sample_rate,
    {
        self.nominal_sample_rate
    }

    /// The number of audio channels in each sample frame (1 to 1023).
    pub fn channels_per_frame(&self) -> (r: u16)
        ensures
            r == self@.channels_per_frame,
            0 < r < 1024,
    {
        proof {
            use_type_invariant(self);
        }
        self.channels_per_frame
    }

    /// The sample word format.
    pub fn format(&self) -> (r: PcmFormat)
        ensures
            r == self@.format,
    {
        self.format
    }

    /// The number of valid bits in each sample word (never zero).
    pub fn bit_depth(&self) -> (r: u8)
        ensures
            r == self@.bit_depth,
            r > 0,
    {
        proof {
            use_type_invariant(self);
        }
        self.bit_depth
    }

    /// A copy of the payload bytes.
    pub fn payload(&self) -> (r: Vec<u8>)
        ensures
            r@ == self@.payload,
    {
        copy_range(self.payload.as_slice(), 0, self.payload.len())
    }

    /// A view of the payload bytes without copying.
    pub fn payload_slice(&self) -> (r: &[u8])
        ensures
            r@ == self@.payload,
    {
        self.payload.as_slice()
    }

    /// The number of sample frames in the payload (`None` for user formats, whose
    /// word size is undefined).
    pub fn sample_count(&self) -> (r: Option<usize>)
        ensures
            match word_size_of(self@.format) {
                None => r is None,
                Some(w) => r == Some(
                    (self@.payload.len() as int / frame_size(self@.format, self@.channels_per_frame))
                        as usize,
                ),
            },
    {
        proof {
            use_type_invariant(self);
        }
        let word_size_bits = self.format.word_size()?;
        assert(16 <= word_size_bits <= 32);
        assert(self.channels_per_frame > 0);
        let word_size_bytes = (word_size_bits / 8) as usize;
        let channels = self.channels_per_frame as usize;
        assert(0 < word_size_bytes * channels <= 4 * 1023) by (nonlinear_arith)
            requires
                2 <= word_size_bytes <= 4,
                1 <= channels <= 1023,
        ;
        let frame_size = word_size_bytes * channels;
        Some(self.payload.len() / frame_size)
    }
}

impl Clone for AafPcm {
    fn clone(&self) -> (r: Self)
        ensures
            r@ == self@,
    {
        proof {
            use_type_invariant(self);
        }
        AafPcm {
            nominal_sample_rate: self.nominal_sample_rate,
            channels_per_frame: self.channels_per_frame,
            format: self.format,
            bit_depth: self.bit_depth,
            payload: self.payload(),
        }
    }
}

/// Interpreting the raw data of a PCM description gives the description back.
pub proof fn lemma_pcm_specific_roundtrip(v: AafPcmView)
    requires
        pcm_valid(v),
    ensures
        pcm_of_specific(specific_of_pcm(v)) == Ok::<AafPcmView, InvalidPcmAaf>(v),
{
    let d = specific_of_pcm(v);
    let b = d.aaf_format_specific_data_1;
    let c = sample_rate_code(v.nominal_sample_rate) as int;
    let ch = v.channels_per_frame as int;
    assert(b[0] as int == c * 16 + ch / 256);
    assert(b[0] / 16 == c && (b[0] % 4) * 256 + b[1] == ch) by (nonlinear_arith)
        requires
            b[0] as int == c * 16 + ch / 256,
            b[1] as int == ch % 256,
            0 <= c < 11,
            0 <= ch < 1024,
    ;
    let p = pcm_of_specific(d)->Ok_0;
    assert(p == v);
}

} // verus!
