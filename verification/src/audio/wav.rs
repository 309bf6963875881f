//! RIFF/WAVE parsing and writing on byte buffers.
//!
//! Two uses are served: parsing enough of a WAV file to expose the `b"fmt "`
//! metadata and locate the start of the `b"data"` payload, and reading or
//! writing a whole WAV value in memory while preserving chunk order.

use vstd::prelude::*;

use crate::io::bytes::{le16, le16_at, le32, le32_at, push_bytes, push_le16, push_le32, read_le16, read_le32};
use crate::io::enc_dec::IoError;

verus! {

/// The RIFF file tag, `b"RIFF"`.
pub const RIFF: [u8; 4] = [0x52, 0x49, 0x46, 0x46];

/// The RIFF form type of WAV files, `b"WAVE"`.
pub const WAVE: [u8; 4] = [0x57, 0x41, 0x56, 0x45];

/// The format chunk identifier, `b"fmt "`.
pub const FMT: [u8; 4] = [0x66, 0x6d, 0x74, 0x20];

/// The sample data chunk identifier, `b"data"`.
pub const DATA: [u8; 4] = [0x64, 0x61, 0x74, 0x61];

/// Format tag of `WAVE_FORMAT_EXTENSIBLE` format chunks.
pub const WAVE_FORMAT_EXTENSIBLE: u16 = 0xFFFE;

/// The last 14 bytes of the KSDATAFORMAT subformat GUIDs that carry a plain
/// format tag in their first two bytes.
pub const KS_SUBFORMAT_GUID_SUFFIX: [u8; 14] = [
    0x00, 0x00, 0x00, 0x00, 0x10, 0x00, 0x80, 0x00, 0x00, 0xAA, 0x00, 0x38, 0x9B, 0x71,
];

/// Errors returned while reading or writing WAV data.
#[derive(Debug)]
pub enum WavError {
    /// The RIFF or WAVE signature did not match the expected 4-byte tag.
    InvalidMagic { found: [u8; 4], expected: [u8; 4] },
    /// A chunk size did not satisfy the bounds required by its format.
    InvalidChunkSize {
        /// Four-byte RIFF chunk identifier.
        chunk_id: [u8; 4],
        /// Size declared for the chunk in the stream.
        found_size: u32,
        /// Inclusive range of valid sizes for the chunk.
        expected_size: core::ops::RangeInclusive<u32>,
    },
    /// A `b"data"` chunk was encountered before any `b"fmt "` chunk.
    DataBeforeFmt,
    /// The input ended before a `b"fmt "` chunk was found.
    MissingFmtChunk,
    /// The input ended before a `b"data"` chunk was found.
    MissingDataChunk,
    /// Reading or writing the bytes themselves failed.
    Io(IoError),
}

/// What a failed read reports: the error's variant and fields, with byte tags
/// as sequences and the range of valid chunk sizes given by its lower bound
/// (every range the reader reports ends at `u32::MAX`).
pub enum WavFailure {
    /// See [`WavError::InvalidMagic`].
    InvalidMagic { found: Seq<u8>, expected: Seq<u8> },
    /// See [`WavError::InvalidChunkSize`].
    InvalidChunkSize { chunk_id: Seq<u8>, found_size: u32, min_size: u32 },
    /// See [`WavError::DataBeforeFmt`].
    DataBeforeFmt,
    /// See [`WavError::MissingFmtChunk`].
    MissingFmtChunk,
    /// See [`WavError::MissingDataChunk`].
    MissingDataChunk,
    /// See [`WavError::Io`].
    Io(IoError),
}

/// Whether an error is the one a failure describes.
pub open spec fn reports(e: WavError, f: WavFailure) -> bool {
    match f {
        WavFailure::InvalidMagic { found, expected } => {
            &&& e matches WavError::InvalidMagic { found: fd, expected: ex }
            &&& fd@ == found
            &&& ex@ == expected
        },
        WavFailure::InvalidChunkSize { chunk_id, found_size, min_size } => {
            &&& e matches WavError::InvalidChunkSize { chunk_id: c, found_size: s, expected_size }
            &&& c@ == chunk_id
            &&& s == found_size
            &&& expected_size@.start == min_size
            &&& expected_size@.end == u32::MAX
            &&& !expected_size@.exhausted
        },
        WavFailure::DataBeforeFmt => e is DataBeforeFmt,
        WavFailure::MissingFmtChunk => e is MissingFmtChunk,
        WavFailure::MissingDataChunk => e is MissingDataChunk,
        WavFailure::Io(k) => e == WavError::Io(k),
    }
}

/// Generic RIFF/WAVE chunk.
#[derive(Debug, Clone, PartialEq, Eq)]
pub struct WavChunk {
    /// Four-byte RIFF chunk identifier.
    pub chunk_id: [u8; 4],
    /// Raw chunk payload bytes, without the 8-byte chunk header and pad byte.
    pub data: Vec<u8>,
}

/// Model of a chunk: its identifier and payload.
pub struct ChunkView {
    pub id: Seq<u8>,
    pub data: Seq<u8>,
}

impl View for WavChunk {
    type V = ChunkView;

    open spec fn view(&self) -> ChunkView {
        ChunkView { id: self.chunk_id@, data: self.data@ }
    }
}

/// The pad byte that follows a payload of odd length.
pub open spec fn padding(len: int) -> Seq<u8> {
    if len % 2 == 1 {
        seq![0u8]
    } else {
        Seq::empty()
    }
}

/// The bytes of a chunk on disk: identifier, little-endian payload size,
/// payload and pad byte.
pub open spec fn chunk_bytes(c: ChunkView) -> Seq<u8> {
    c.id + le32(c.data.len() as u32) + c.data + padding(c.data.len() as int)
}

/// The on-disk size of a chunk, header and pad byte included.
pub open spec fn chunk_size(c: ChunkView) -> int {
    8 + c.data.len() + (c.data.len() % 2) as int
}

/// The models of a list of chunks.
pub open spec fn chunk_views(cs: Seq<WavChunk>) -> Seq<ChunkView> {
    Seq::new(cs.len(), |i: int| cs[i]@)
}

/// The bytes of a list of chunks, one after the other.
pub open spec fn chunks_bytes(cs: Seq<ChunkView>) -> Seq<u8>
    decreases cs.len(),
{
    if cs.len() == 0 {
        Seq::empty()
    } else {
        chunks_bytes(cs.drop_last()) + chunk_bytes(cs.last())
    }
}

/// The on-disk size of a list of chunks.
pub open spec fn chunks_size(cs: Seq<ChunkView>) -> int
    decreases cs.len(),
{
    if cs.len() == 0 {
        0
    } else {
        chunks_size(cs.drop_last()) + chunk_size(cs.last())
    }
}

/// Encoding tag stored in the WAV `b"fmt "` chunk's `wFormatTag` field.
#[derive(Debug, Clone, Copy, PartialEq, Eq, Structural)]
pub enum WavAudioFormat {
    /// Linear PCM integer samples (`WAVE_FORMAT_PCM`, 0x0001).
    Pcm,
    /// IEEE-754 floating-point samples (`WAVE_FORMAT_IEEE_FLOAT`, 0x0003).
    IeeeFloat,
    /// Any other format tag.
    Other(u16),
}

/// The format tag of an audio format.
pub open spec fn format_tag(f: WavAudioFormat) -> u16 {
    match f {
        WavAudioFormat::Pcm => 1,
        WavAudioFormat::IeeeFloat => 3,
        WavAudioFormat::Other(tag) => tag,
    }
}

/// The audio format a format tag names.
pub open spec fn format_of_tag(tag: u16) -> WavAudioFormat {
    if tag == 1 {
        WavAudioFormat::Pcm
    } else if tag == 3 {
        WavAudioFormat::IeeeFloat
    } else {
        WavAudioFormat::Other(tag)
    }
}

/// Whether an audio format is written in its named form.
pub open spec fn format_canonical(f: WavAudioFormat) -> bool {
    f matches WavAudioFormat::Other(tag) ==> tag != 1 && tag != 3
}

impl From<u16> for WavAudioFormat {
    fn from(tag: u16) -> (r: Self) {
        if tag == 1 {
            WavAudioFormat::Pcm
        } else if tag == 3 {
            WavAudioFormat::IeeeFloat
        } else {
            WavAudioFormat::Other(tag)
        }
    }
}

impl vstd::std_specs::convert::FromSpecImpl<u16> for WavAudioFormat {
    open spec fn obeys_from_spec() -> bool {
        true
    }

    open spec fn from_spec(tag: u16) -> Self {
        format_of_tag(tag)
    }
}

impl From<WavAudioFormat> for u16 {
    fn from(f: WavAudioFormat) -> (r: u16) {
        match f {
            WavAudioFormat::Pcm => 1,
            WavAudioFormat::IeeeFloat => 3,
            WavAudioFormat::Other(tag) => tag,
        }
    }
}

impl vstd::std_specs::convert::FromSpecImpl<WavAudioFormat> for u16 {
    open spec fn obeys_from_spec() -> bool {
        true
    }

    open spec fn from_spec(f: WavAudioFormat) -> Self {
        format_tag(f)
    }
}

/// A tag read back names the format it was written from, when that format is
/// in named form; a format read from a tag writes that tag.
pub proof fn lemma_format_tag_roundtrip(f: WavAudioFormat, tag: u16)
    ensures
        format_canonical(f) ==> format_of_tag(format_tag(f)) == f,
        format_tag(format_of_tag(tag)) == tag,
        format_canonical(format_of_tag(tag)),
{
}

/// Metadata decoded from a WAV `b"fmt "` chunk.
#[derive(Debug, Clone, Copy, PartialEq, Eq, Structural)]
pub struct WavHeader {
    /// Number of interleaved audio channels.
    pub channels: u16,
    /// Sampling frequency in hertz.
    pub sample_rate: u32,
    /// Width of each stored sample container, in bits.
    pub bits_per_sample: u16,
    /// Number of meaningful bits in each sample container.
    pub valid_bits_per_sample: u16,
    /// Sample encoding.
    pub audio_format: WavAudioFormat,
}

/// Whether a header can only be written unambiguously as a
/// `WAVE_FORMAT_EXTENSIBLE` format chunk.
pub open spec fn header_needs_extensible(h: WavHeader) -> bool {
    ||| h.valid_bits_per_sample != h.bits_per_sample
    ||| h.channels > 2
    ||| (h.audio_format is Pcm && h.bits_per_sample > 16)
}

/// The last 14 bytes of the KSDATAFORMAT subformat GUIDs.
pub open spec fn guid_suffix() -> Seq<u8> {
    KS_SUBFORMAT_GUID_SUFFIX@
}

/// The canonical 24-byte extension of a `WAVE_FORMAT_EXTENSIBLE` format chunk.
pub open spec fn canonical_extension(h: WavHeader) -> Seq<u8> {
    le16(22) + le16(h.valid_bits_per_sample) + le32(0) + le16(format_tag(h.audio_format))
        + guid_suffix()
}

/// Whether the format chunk of a header with the given extension bytes is
/// written as `WAVE_FORMAT_EXTENSIBLE`.
pub open spec fn uses_extensible(h: WavHeader, ext: Seq<u8>) -> bool {
    ext.len() >= 24 || header_needs_extensible(h)
}

/// The extension bytes written after the 16 base bytes of a format chunk.
pub open spec fn written_extension(h: WavHeader, ext: Seq<u8>) -> Seq<u8> {
    if ext.len() == 0 && uses_extensible(h, ext) {
        canonical_extension(h)
    } else {
        ext
    }
}

/// Bytes per second of a header.
pub open spec fn byte_rate(h: WavHeader) -> int {
    h.sample_rate * h.channels * (h.bits_per_sample / 8)
}

/// Bytes per sample frame of a header.
pub open spec fn block_align(h: WavHeader) -> int {
    h.channels * (h.bits_per_sample / 8)
}

/// Whether the derived fields of a header fit their widths (the byte rate is
/// computed as rate times channels, then times bytes per sample).
pub open spec fn header_encodable(h: WavHeader) -> bool {
    &&& h.sample_rate * h.channels <= u32::MAX
    &&& byte_rate(h) <= u32::MAX
    &&& block_align(h) <= u16::MAX
}

/// The payload of the format chunk written for a header and extension bytes.
pub open spec fn fmt_chunk_data(h: WavHeader, ext: Seq<u8>) -> Seq<u8> {
    le16(
        if uses_extensible(h, ext) {
            WAVE_FORMAT_EXTENSIBLE
        } else {
            format_tag(h.audio_format)
        },
    ) + le16(h.channels) + le32(h.sample_rate) + le32(byte_rate(h) as u32) + le16(
        block_align(h) as u16,
    ) + le16(h.bits_per_sample) + written_extension(h, ext)
}

/// The format chunk written for a header and extension bytes.
pub open spec fn fmt_chunk(h: WavHeader, ext: Seq<u8>) -> ChunkView {
    ChunkView { id: FMT@, data: fmt_chunk_data(h, ext) }
}

/// The size reported for a payload of the given length (saturating at
/// `u32::MAX`).
pub open spec fn reported_size(len: int) -> u32 {
    if len <= u32::MAX {
        len as u32
    } else {
        u32::MAX
    }
}

/// The header a format chunk payload describes.
///
/// Payloads under 16 bytes, and extensible ones under 40 bytes, are too short.
/// In an extensible chunk a zero valid-bits field means all bits are valid, and
/// the subformat GUID names a format tag only when it ends in the KSDATAFORMAT
/// suffix.
pub open spec fn header_of_fmt(data: Seq<u8>) -> Result<WavHeader, WavFailure> {
    if data.len() < 16 {
        Err(
            WavFailure::InvalidChunkSize {
                chunk_id: FMT@,
                found_size: reported_size(data.len() as int),
                min_size: 16,
            },
        )
    } else {
        let tag = le16_at(data, 0);
        let bits = le16_at(data, 14);
        let channels = le16_at(data, 2);
        let sample_rate = le32_at(data, 4);
        if tag == WAVE_FORMAT_EXTENSIBLE {
            if data.len() < 40 {
                Err(
                    WavFailure::InvalidChunkSize {
                        chunk_id: FMT@,
                        found_size: reported_size(data.len() as int),
                        min_size: 40,
                    },
                )
            } else {
                let raw_valid = le16_at(data, 18);
                let sub_tag = le16_at(data, 24);
                Ok(
                    WavHeader {
                        channels,
                        sample_rate,
                        bits_per_sample: bits,
                        valid_bits_per_sample: if raw_valid == 0 {
                            bits
                        } else {
                            raw_valid
                        },
                        audio_format: if data.subrange(26, 40) == guid_suffix() {
                            format_of_tag(sub_tag)
                        } else {
                            WavAudioFormat::Other(sub_tag)
                        },
                    },
                )
            }
        } else {
            Ok(
                WavHeader {
                    channels,
                    sample_rate,
                    bits_per_sample: bits,
                    valid_bits_per_sample: bits,
                    audio_format: format_of_tag(tag),
                },
            )
        }
    }
}

/// Whether two 4-byte tags are equal.
fn same_tag(a: &[u8; 4], b: &[u8; 4]) -> (r: bool)
    ensures
        r == (a@ == b@),
{
    let r = a[0] == b[0] && a[1] == b[1] && a[2] == b[2] && a[3] == b[3];
    if r {
        assert(a@ =~= b@);
    }
    r
}

/// The 4-byte tag at `pos`.
fn tag_at(bytes: &[u8], pos: usize) -> (r: [u8; 4])
    requires
        pos + 4 <= bytes@.len(),
    ensures
        r@ == bytes@.subrange(pos as int, pos + 4),
{
    let r = [bytes[pos], bytes[pos + 1], bytes[pos + 2], bytes[pos + 3]];
    assert(r@ =~= bytes@.subrange(pos as int, pos + 4));
    r
}

/// The size reported for a payload length, saturating at `u32::MAX`.
fn size_field(len: usize) -> (r: u32)
    ensures
        r == reported_size(len as int),
{
    if len > u32::MAX as usize {
        u32::MAX
    } else {
        len as u32
    }
}

/// Parsed WAV state up to the start of the `b"data"` payload.
///
/// For streaming: the metadata and the chunks before the payload, and the size
/// of the payload that follows.
#[derive(Debug, Clone, PartialEq, Eq)]
pub struct WavPreamble {
    /// Chunks encountered before the `b"fmt "` chunk, in file order.
    pub chunks_before_fmt: Vec<WavChunk>,
    /// Decoded metadata from the `b"fmt "` chunk.
    pub header: WavHeader,
    /// Raw `b"fmt "` extension bytes after the base 16-byte header.
    pub fmt_extension: Vec<u8>,
    /// Chunks encountered after `b"fmt "` and before `b"data"`, in file order.
    pub chunks_before_data: Vec<WavChunk>,
    /// Declared size of the `b"data"` payload in bytes.
    pub data_size: u32,
}

/// Model of a [`WavPreamble`].
pub struct WavPreambleView {
    pub before_fmt: Seq<ChunkView>,
    pub header: WavHeader,
    pub fmt_extension: Seq<u8>,
    pub before_data: Seq<ChunkView>,
    pub data_size: u32,
}

impl View for WavPreamble {
    type V = WavPreambleView;

    open spec fn view(&self) -> WavPreambleView {
        WavPreambleView {
            before_fmt: chunk_views(self.chunks_before_fmt@),
            header: self.header,
            fmt_extension: self.fmt_extension@,
            before_data: chunk_views(self.chunks_before_data@),
            data_size: self.data_size,
        }
    }
}

/// What a reader has collected before the `b"data"` chunk: the chunks before
/// the format chunk, the last format chunk's header and extension, and the
/// chunks after it.
pub struct PreambleProgress {
    pub before_fmt: Seq<ChunkView>,
    pub fmt: Option<(WavHeader, Seq<u8>)>,
    pub before_data: Seq<ChunkView>,
}

/// The failure, if any, of the 12-byte RIFF/WAVE file header at the start of
/// the bytes.
pub open spec fn riff_failure(s: Seq<u8>) -> Option<WavFailure> {
    if s.len() < 4 {
        Some(WavFailure::Io(IoError::UnexpectedEof))
    } else if s.subrange(0, 4) != RIFF@ {
        Some(WavFailure::InvalidMagic { found: s.subrange(0, 4), expected: RIFF@ })
    } else if s.len() < 12 {
        Some(WavFailure::Io(IoError::UnexpectedEof))
    } else if s.subrange(8, 12) != WAVE@ {
        Some(WavFailure::InvalidMagic { found: s.subrange(8, 12), expected: WAVE@ })
    } else {
        None
    }
}

/// Reads chunks from `pos` until the `b"data"` chunk header, continuing from
/// what was collected so far; on success, the preamble and the position of the
/// first payload byte.
///
/// Fewer than 4 bytes left end the chunks: the format chunk or the data chunk
/// is missing. A chunk header or payload (with its pad byte) cut short is an
/// unexpected end of input.
pub open spec fn preamble_from(s: Seq<u8>, pos: int, p: PreambleProgress) -> Result<
    (WavPreambleView, int),
    WavFailure,
>
    decreases s.len() - pos,
{
    if s.len() - pos < 4 {
        if p.fmt is Some {
            Err(WavFailure::MissingDataChunk)
        } else {
            Err(WavFailure::MissingFmtChunk)
        }
    } else if s.len() - pos < 8 {
        Err(WavFailure::Io(IoError::UnexpectedEof))
    } else {
        let id = s.subrange(pos, pos + 4);
        let size = le32_at(s, pos + 4);
        if id == DATA@ {
            match p.fmt {
                None => Err(WavFailure::DataBeforeFmt),
                Some(fmt) => Ok(
                    (
                        WavPreambleView {
                            before_fmt: p.before_fmt,
                            header: fmt.0,
                            fmt_extension: fmt.1,
                            before_data: p.before_data,
                            data_size: size,
                        },
                        pos + 8,
                    ),
                ),
            }
        } else if s.len() - pos - 8 < size + size % 2 {
            Err(WavFailure::Io(IoError::UnexpectedEof))
        } else {
            let c = ChunkView { id, data: s.subrange(pos + 8, pos + 8 + size) };
            let next = pos + 8 + size + size % 2;
            if id == FMT@ {
                match header_of_fmt(c.data) {
                    Err(f) => Err(f),
                    Ok(h) => preamble_from(
                        s,
                        next,
                        PreambleProgress {
                            before_fmt: p.before_fmt,
                            fmt: Some((h, c.data.subrange(16, c.data.len() as int))),
                            before_data: p.before_data,
                        },
                    ),
                }
            } else if p.fmt is Some {
                preamble_from(
                    s,
                    next,
                    PreambleProgress {
                        before_fmt: p.before_fmt,
                        fmt: p.fmt,
                        before_data: p.before_data.push(c),
                    },
                )
            } else {
                preamble_from(
                    s,
                    next,
                    PreambleProgress {
                        before_fmt: p.before_fmt.push(c),
                        fmt: p.fmt,
                        before_data: p.before_data,
                    },
                )
            }
        }
    }
}

/// Nothing collected yet.
pub open spec fn empty_progress() -> PreambleProgress {
    PreambleProgress { before_fmt: Seq::empty(), fmt: None, before_data: Seq::empty() }
}

/// The preamble of a WAV file and the position of its first payload byte.
pub open spec fn preamble_of(s: Seq<u8>) -> Result<(WavPreambleView, int), WavFailure> {
    match riff_failure(s) {
        Some(f) => Err(f),
        None => preamble_from(s, 12, empty_progress()),
    }
}

/// What a reader holding these values has collected.
pub open spec fn progress_of(
    before_fmt: Seq<WavChunk>,
    header: Option<WavHeader>,
    ext: Seq<u8>,
    before_data: Seq<WavChunk>,
) -> PreambleProgress {
    PreambleProgress {
        before_fmt: chunk_views(before_fmt),
        fmt: match header {
            Some(h) => Some((h, ext)),
            None => None,
        },
        before_data: chunk_views(before_data),
    }
}

/// Appending a chunk appends its model.
proof fn lemma_chunk_views_push(cs: Seq<WavChunk>, c: WavChunk)
    ensures
        chunk_views(cs.push(c)) =~= chunk_views(cs).push(c@),
{
}

/// A preamble read from `pos` ends at a payload position within the bytes.
proof fn lemma_preamble_end_within(s: Seq<u8>, pos: int, p: PreambleProgress)
    ensures
        preamble_from(s, pos, p) matches Ok((v, q)) ==> pos + 8 <= q <= s.len(),
        preamble_from(s, pos, p) matches Ok((v, q)) ==> s.subrange(q - 8, q - 4) == DATA@
            && le32_at(s, q - 4) == v.data_size,
    decreases s.len() - pos,
{
    if s.len() - pos >= 8 {
        let id = s.subrange(pos, pos + 4);
        let size = le32_at(s, pos + 4);
        if id != DATA@ && s.len() - pos - 8 >= size + size % 2 {
            let c = ChunkView { id, data: s.subrange(pos + 8, pos + 8 + size) };
            let next = pos + 8 + size + size % 2;
            if id == FMT@ {
                if let Ok(h) = header_of_fmt(c.data) {
                    lemma_preamble_end_within(
                        s,
                        next,
                        PreambleProgress {
                            before_fmt: p.before_fmt,
                            fmt: Some((h, c.data.subrange(16, c.data.len() as int))),
                            before_data: p.before_data,
                        },
                    );
                }
            } else if p.fmt is Some {
                lemma_preamble_end_within(
                    s,
                    next,
                    PreambleProgress {
                        before_fmt: p.before_fmt,
                        fmt: p.fmt,
                        before_data: p.before_data.push(c),
                    },
                );
            } else {
                lemma_preamble_end_within(
                    s,
                    next,
                    PreambleProgress {
                        before_fmt: p.before_fmt.push(c),
                        fmt: p.fmt,
                        before_data: p.before_data,
                    },
                );
            }
        }
    }
}

/// A preamble is read up to the header of its `b"data"` chunk: the position
/// returned is that of the first payload byte, right after the chunk's 8-byte
/// header, whose size field is the payload size read.
pub proof fn lemma_preamble_position(s: Seq<u8>)
    ensures
        preamble_of(s) matches Ok((v, q)) ==> {
            &&& 20 <= q <= s.len()
            &&& s.subrange(q - 8, q - 4) == DATA@
            &&& le32_at(s, q - 4) == v.data_size
        },
{
    if riff_failure(s) is None {
        lemma_preamble_end_within(s, 12, empty_progress());
    }
}

impl WavPreamble {
    /// Writes a preamble for streaming audio: every chunk before the payload,
    /// then a `b"data"` chunk header; the RIFF and data sizes are written as
    /// `0xFFFF_FFFF`. Sample bytes are to follow.
    ///
    /// Fails with [`IoError::InvalidInput`], appending nothing, when a chunk is
    /// too large for the 32-bit size field.
    pub fn write_stream(&self, out: &mut Vec<u8>) -> (r: Result<(), IoError>)
        requires
            header_encodable(self.header),
        ensures
            stream_writable(self@) <==> r is Ok,
            r is Ok ==> final(out)@ == old(out)@ + stream_bytes(self@),
            r is Err ==> r == Err::<(), IoError>(IoError::InvalidInput) && final(out)@ == old(
                out,
            )@,
    {
        let fmt_chunk = self.header.into_wav_chunk(self.fmt_extension.as_slice());
        if !all_chunks_fit(&self.chunks_before_fmt) || fmt_chunk.data.len() > u32::MAX as usize
            || !all_chunks_fit(&self.chunks_before_data) {
            return Err(IoError::InvalidInput);
        }
        write_riff_header(out, 0xFFFF_FFFF);
        write_chunks(&self.chunks_before_fmt, out);
        let a = fmt_chunk.write(out);
        write_chunks(&self.chunks_before_data, out);
        push_bytes(out, &DATA);
        push_le32(out, 0xFFFF_FFFF);
        assert(final(out)@ =~= old(out)@ + stream_bytes(self@));
        Ok(())
    }

    /// Checks the 12-byte RIFF/WAVE file header.
    fn read_riff_header(bytes: &[u8]) -> (r: Result<(), WavError>)
        ensures
            match riff_failure(bytes@) {
                None => r is Ok,
                Some(f) => r matches Err(e) && reports(e, f),
            },
    {
        if bytes.len() < 4 {
            return Err(WavError::Io(IoError::UnexpectedEof));
        }
        let riff = tag_at(bytes, 0);
        if !same_tag(&riff, &RIFF) {
            return Err(WavError::InvalidMagic { found: riff, expected: RIFF });
        }
        if bytes.len() < 12 {
            return Err(WavError::Io(IoError::UnexpectedEof));
        }
        let wave = tag_at(bytes, 8);
        if !same_tag(&wave, &WAVE) {
            return Err(WavError::InvalidMagic { found: wave, expected: WAVE });
        }
        Ok(())
    }

    /// Parses a WAV file up to the `b"data"` payload.
    ///
    /// Returns the preamble and the position of the first payload byte, where
    /// the sample data continues.
    pub fn read(bytes: &[u8]) -> (r: Result<(WavPreamble, usize), WavError>)
        ensures
            match preamble_of(bytes@) {
                Ok((v, pos)) => r matches Ok((p, q)) && p@ == v && q == pos,
                Err(f) => r matches Err(e) && reports(e, f),
            },
    {
        match Self::read_riff_header(bytes) {
            Ok(()) => {},
            Err(e) => return Err(e),
        }
        let mut pos: usize = 12;
        let mut chunks_before_fmt: Vec<WavChunk> = Vec::new();
        let mut chunks_before_data: Vec<WavChunk> = Vec::new();
        let mut header: Option<WavHeader> = None;
        let mut fmt_extension: Vec<u8> = Vec::new();
        assert(chunk_views(chunks_before_fmt@) =~= Seq::<ChunkView>::empty());
        assert(chunk_views(chunks_before_data@) =~= Seq::<ChunkView>::empty());
        loop
            invariant
                12 <= pos <= bytes@.len(),
                riff_failure(bytes@) is None,
                preamble_of(bytes@) == preamble_from(
                    bytes@,
                    pos as int,
                    progress_of(
                        chunks_before_fmt@,
                        header,
                        fmt_extension@,
                        chunks_before_data@,
                    ),
                ),
            decreases bytes@.len() - pos,
        {
            let ghost p = progress_of(
                chunks_before_fmt@,
                header,
                fmt_extension@,
                chunks_before_data@,
            );
            let remaining = bytes.len() - pos;
            if remaining < 4 {
                if header.is_some() {
                    return Err(WavError::MissingDataChunk);
                } else {
                    return Err(WavError::MissingFmtChunk);
                }
            }
            if remaining < 8 {
                return Err(WavError::Io(IoError::UnexpectedEof));
            }
            let chunk_id = tag_at(bytes, pos);
            let chunk_size = read_le32(bytes, pos + 4);
            if same_tag(&chunk_id, &DATA) {
                match header {
                    None => return Err(WavError::DataBeforeFmt),
                    Some(h) => {
                        let preamble = WavPreamble {
                            chunks_before_fmt,
                            header: h,
                            fmt_extension,
                            chunks_before_data,
                            data_size: chunk_size,
                        };
                        return Ok((preamble, pos + 8));
                    },
                }
            }
            let size = chunk_size as usize;
            let pad: usize = (chunk_size % 2) as usize;
            if remaining - 8 < size || remaining - 8 - size < pad {
                return Err(WavError::Io(IoError::UnexpectedEof));
            }
            let data = crate::io::bytes::copy_range(bytes, pos + 8, pos + 8 + size);
            let next = pos + 8 + size + pad;
            let chunk = WavChunk::new(chunk_id, data);
            if same_tag(&chunk_id, &FMT) {
                let decoded = match WavHeader::from_fmt_chunk(&chunk) {
                    Ok(h) => h,
                    Err(e) => return Err(e),
                };
                fmt_extension = crate::io::bytes::copy_range(
                    chunk.data.as_slice(),
                    16,
                    chunk.data.len(),
                );
                header = Some(decoded);
            } else if header.is_some() {
                proof {
                    lemma_chunk_views_push(chunks_before_data@, chunk);
                }
                chunks_before_data.push(chunk);
            } else {
                proof {
                    lemma_chunk_views_push(chunks_before_fmt@, chunk);
                }
                chunks_before_fmt.push(chunk);
            }
            pos = next;
        }
    }
}

/// In-memory WAV value preserving chunk order, with the format metadata
/// decoded.
#[derive(Debug, Clone, PartialEq, Eq)]
pub struct Wav {
    /// Chunks encountered before the `b"fmt "` chunk, in file order.
    pub chunks_before_fmt: Vec<WavChunk>,
    /// Decoded metadata from the `b"fmt "` chunk.
    pub header: WavHeader,
    /// Raw `b"fmt "` extension bytes after the base 16-byte header.
    pub fmt_extension: Vec<u8>,
    /// Chunks encountered after `b"fmt "` and before `b"data"`, in file order.
    pub chunks_before_data: Vec<WavChunk>,
    /// Raw `b"data"` payload bytes.
    pub data: Vec<u8>,
    /// Chunks encountered after the first `b"data"` chunk, in file order.
    pub chunks_after_data: Vec<WavChunk>,
}

/// Model of a [`Wav`].
pub struct WavView {
    pub before_fmt: Seq<ChunkView>,
    pub header: WavHeader,
    pub fmt_extension: Seq<u8>,
    pub before_data: Seq<ChunkView>,
    pub data: Seq<u8>,
    pub after_data: Seq<ChunkView>,
}

impl View for Wav {
    type V = WavView;

    open spec fn view(&self) -> WavView {
        WavView {
            before_fmt: chunk_views(self.chunks_before_fmt@),
            header: self.header,
            fmt_extension: self.fmt_extension@,
            before_data: chunk_views(self.chunks_before_data@),
            data: self.data@,
            after_data: chunk_views(self.chunks_after_data@),
        }
    }
}

/// Reads the chunks from `pos` to the end of the bytes, after those collected
/// so far; fewer than 4 bytes left end the chunks.
pub open spec fn chunks_from(s: Seq<u8>, pos: int, acc: Seq<ChunkView>) -> Result<
    Seq<ChunkView>,
    WavFailure,
>
    decreases s.len() - pos,
{
    if s.len() - pos < 4 {
        Ok(acc)
    } else if s.len() - pos < 8 {
        Err(WavFailure::Io(IoError::UnexpectedEof))
    } else {
        let size = le32_at(s, pos + 4);
        if s.len() - pos - 8 < size + size % 2 {
            Err(WavFailure::Io(IoError::UnexpectedEof))
        } else {
            chunks_from(
                s,
                pos + 8 + size + size % 2,
                acc.push(ChunkView { id: s.subrange(pos, pos + 4), data: s.subrange(pos + 8, pos + 8 + size) }),
            )
        }
    }
}

/// The WAV value the bytes of a whole file hold: the preamble, the payload of
/// the declared size (and its pad byte), and every chunk after it.
pub open spec fn wav_of(s: Seq<u8>) -> Result<WavView, WavFailure> {
    match preamble_of(s) {
        Err(f) => Err(f),
        Ok((p, pos)) => {
            let size = p.data_size as int;
            if s.len() - pos < size + size % 2 {
                Err(WavFailure::Io(IoError::UnexpectedEof))
            } else {
                match chunks_from(s, pos + size + size % 2, Seq::empty()) {
                    Err(f) => Err(f),
                    Ok(after) => Ok(
                        WavView {
                            before_fmt: p.before_fmt,
                            header: p.header,
                            fmt_extension: p.fmt_extension,
                            before_data: p.before_data,
                            data: s.subrange(pos, pos + size),
                            after_data: after,
                        },
                    ),
                }
            }
        }
    }
}

/// The data chunk holding a payload.
pub open spec fn data_chunk(data: Seq<u8>) -> ChunkView {
    ChunkView { id: DATA@, data }
}

/// The RIFF size field of a WAV value: the form type and every chunk.
pub open spec fn riff_size(w: WavView) -> int {
    4 + chunks_size(w.before_fmt) + chunk_size(fmt_chunk(w.header, w.fmt_extension)) + chunks_size(
        w.before_data,
    ) + chunk_size(data_chunk(w.data)) + chunks_size(w.after_data)
}

/// The 12-byte RIFF/WAVE file header with the given size field.
pub open spec fn riff_header(size: u32) -> Seq<u8> {
    RIFF@ + le32(size) + WAVE@
}

/// The bytes of a WAV file holding a WAV value.
pub open spec fn wav_bytes(w: WavView) -> Seq<u8> {
    riff_header(riff_size(w) as u32) + chunks_bytes(w.before_fmt) + chunk_bytes(
        fmt_chunk(w.header, w.fmt_extension),
    ) + chunks_bytes(w.before_data) + chunk_bytes(data_chunk(w.data)) + chunks_bytes(w.after_data)
}

impl Wav {
    /// A WAV value holding only a format chunk and a data chunk.
    pub fn from_header_and_data(header: WavHeader, data: Vec<u8>) -> (r: Self)
        ensures
            r@ == (WavView {
                before_fmt: Seq::empty(),
                header,
                fmt_extension: Seq::empty(),
                before_data: Seq::empty(),
                data: data@,
                after_data: Seq::empty(),
            }),
    {
        let r = Wav {
            chunks_before_fmt: Vec::new(),
            header,
            fmt_extension: Vec::new(),
            chunks_before_data: Vec::new(),
            data,
            chunks_after_data: Vec::new(),
        };
        assert(r@.before_fmt =~= Seq::<ChunkView>::empty());
        assert(r@.before_data =~= Seq::<ChunkView>::empty());
        assert(r@.after_data =~= Seq::<ChunkView>::empty());
        r
    }

    /// Writes a complete WAV file with exact chunk sizes, in the chunk order
    /// this value holds.
    ///
    /// Fails with [`IoError::InvalidInput`], appending nothing, when the file is
    /// too large for the 32-bit RIFF size field.
    pub fn write(&self, out: &mut Vec<u8>) -> (r: Result<(), IoError>)
        requires
            header_encodable(self.header),
        ensures
            riff_size(self@) <= u32::MAX <==> r is Ok,
            r is Ok ==> final(out)@ == old(out)@ + wav_bytes(self@),
            r is Err ==> r == Err::<(), IoError>(IoError::InvalidInput) && final(out)@ == old(
                out,
            )@,
    {
        let fmt_chunk = self.header.into_wav_chunk(self.fmt_extension.as_slice());
        let data_chunk = WavChunk::new(DATA, crate::io::bytes::copy_range(self.data.as_slice(), 0, self.data.len()));
        assert(self.data@.subrange(0, self.data@.len() as int) =~= self.data@);
        let ghost w = self@;
        proof {
            lemma_chunks_size_prefix(w.before_fmt, 0);
            lemma_chunks_size_prefix(w.before_data, 0);
            lemma_chunks_size_prefix(w.after_data, 0);
        }
        let t1 = add_chunks_size(4, &self.chunks_before_fmt);
        let t2 = add_chunk_size(t1, &fmt_chunk);
        let t3 = add_chunks_size(t2, &self.chunks_before_data);
        let t4 = add_chunk_size(t3, &data_chunk);
        let total = add_chunks_size(t4, &self.chunks_after_data);
        assert(total < SIZE_LIMIT <==> riff_size(w) < SIZE_LIMIT);
        assert(total < SIZE_LIMIT ==> total == riff_size(w));
        if total >= SIZE_LIMIT {
            return Err(IoError::InvalidInput);
        }
        write_riff_header(out, total as u32);
        proof {
            lemma_chunks_fit(chunk_views(self.chunks_before_fmt@));
            lemma_chunks_fit(chunk_views(self.chunks_before_data@));
            lemma_chunks_fit(chunk_views(self.chunks_after_data@));
        }
        write_chunks(&self.chunks_before_fmt, out);
        let a = fmt_chunk.write(out);
        write_chunks(&self.chunks_before_data, out);
        let b = data_chunk.write(out);
        write_chunks(&self.chunks_after_data, out);
        assert(final(out)@ =~= old(out)@ + wav_bytes(self@));
        Ok(())
    }

    /// Reads a complete WAV file, keeping the order of every chunk, also those
    /// after the first `b"data"` chunk.
    pub fn read(bytes: &[u8]) -> (r: Result<Wav, WavError>)
        ensures
            match wav_of(bytes@) {
                Ok(v) => r matches Ok(w) && w@ == v,
                Err(f) => r matches Err(e) && reports(e, f),
            },
    {
        let (preamble, start) = match WavPreamble::read(bytes) {
            Ok(x) => x,
            Err(e) => return Err(e),
        };
        proof {
            lemma_preamble_end_within(bytes@, 12, empty_progress());
        }
        let size = preamble.data_size as usize;
        let pad: usize = (preamble.data_size % 2) as usize;
        let remaining = bytes.len() - start;
        if remaining < size || remaining - size < pad {
            return Err(WavError::Io(IoError::UnexpectedEof));
        }
        let data = crate::io::bytes::copy_range(bytes, start, start + size);
        let mut pos: usize = start + size + pad;
        let mut chunks_after_data: Vec<WavChunk> = Vec::new();
        assert(chunk_views(chunks_after_data@) =~= Seq::<ChunkView>::empty());
        loop
            invariant
                pos <= bytes@.len(),
                preamble_of(bytes@) == Ok::<(WavPreambleView, int), WavFailure>((preamble@, start as int)),
                start + size + pad <= bytes@.len(),
                size == preamble.data_size,
                pad == preamble.data_size % 2,
                data@ == bytes@.subrange(start as int, start + size),
                chunks_from(bytes@, start + size + pad, Seq::empty()) == chunks_from(
                    bytes@,
                    pos as int,
                    chunk_views(chunks_after_data@),
                ),
            ensures
                bytes@.len() - pos < 4,
            decreases bytes@.len() - pos,
        {
            let remaining = bytes.len() - pos;
            if remaining < 4 {
                break;
            }
            if remaining < 8 {
                return Err(WavError::Io(IoError::UnexpectedEof));
            }
            let chunk_id = tag_at(bytes, pos);
            let chunk_size = read_le32(bytes, pos + 4);
            let csize = chunk_size as usize;
            let cpad: usize = (chunk_size % 2) as usize;
            if remaining - 8 < csize || remaining - 8 - csize < cpad {
                return Err(WavError::Io(IoError::UnexpectedEof));
            }
            let cdata = crate::io::bytes::copy_range(bytes, pos + 8, pos + 8 + csize);
            let chunk = WavChunk::new(chunk_id, cdata);
            proof {
                lemma_chunk_views_push(chunks_after_data@, chunk);
            }
            chunks_after_data.push(chunk);
            pos = pos + 8 + csize + cpad;
        }
        Ok(
            Wav {
                chunks_before_fmt: preamble.chunks_before_fmt,
                header: preamble.header,
                fmt_extension: preamble.fmt_extension,
                chunks_before_data: preamble.chunks_before_data,
                data,
                chunks_after_data,
            },
        )
    }
}

/// Whether every payload of a list of chunks fits the 32-bit size field.
pub open spec fn chunks_fit(cs: Seq<ChunkView>) -> bool {
    forall|i: int| 0 <= i < cs.len() ==> #[trigger] cs[i].data.len() <= u32::MAX
}

/// The size of a prefix of a list of chunks is at most the size of the list,
/// and no size is negative.
pub(crate) proof fn lemma_chunks_size_prefix(cs: Seq<ChunkView>, i: int)
    requires
        0 <= i <= cs.len(),
    ensures
        0 <= chunks_size(cs.subrange(0, i)) <= chunks_size(cs),
    decreases cs.len(),
{
    if i == cs.len() {
        assert(cs.subrange(0, i) =~= cs);
        if cs.len() > 0 {
            lemma_chunks_size_prefix(cs.drop_last(), i - 1);
            assert(cs.drop_last().subrange(0, i - 1) =~= cs.drop_last());
        }
    } else {
        lemma_chunks_size_prefix(cs.drop_last(), i);
        assert(cs.drop_last().subrange(0, i) =~= cs.subrange(0, i));
    }
}

/// A list of chunks of total size within `u32::MAX` has payloads that fit the
/// size field.
pub(crate) proof fn lemma_chunks_fit(cs: Seq<ChunkView>)
    requires
        chunks_size(cs) <= u32::MAX,
    ensures
        chunks_fit(cs),
{
    assert forall|i: int| 0 <= i < cs.len() implies #[trigger] cs[i].data.len() <= u32::MAX by {
        lemma_chunks_size_prefix(cs, i + 1);
        lemma_chunks_size_prefix(cs.subrange(0, i + 1), i);
        assert(cs.subrange(0, i + 1).drop_last() =~= cs.subrange(0, i + 1).subrange(0, i));
    }
}

/// One past the largest value of a 32-bit size field.
const SIZE_LIMIT: u64 = 0x1_0000_0000;

/// Adds the on-disk size of a list of chunks to a running total, stopping at
/// [`SIZE_LIMIT`].
fn add_chunks_size(total: u64, chunks: &Vec<WavChunk>) -> (r: u64)
    requires
        total <= SIZE_LIMIT,
    ensures
        r == if total + chunks_size(chunk_views(chunks@)) < SIZE_LIMIT {
            total + chunks_size(chunk_views(chunks@))
        } else {
            SIZE_LIMIT as int
        },
{
    let ghost cs = chunk_views(chunks@);
    let mut t: u64 = total;
    let mut i: usize = 0;
    proof {
        lemma_chunks_size_prefix(cs, 0);
    }
    while i < chunks.len()
        invariant
            i <= chunks@.len(),
            cs == chunk_views(chunks@),
            total <= SIZE_LIMIT,
            t == if total + chunks_size(cs.subrange(0, i as int)) < SIZE_LIMIT {
                total + chunks_size(cs.subrange(0, i as int))
            } else {
                SIZE_LIMIT as int
            },
        decreases chunks@.len() - i,
    {
        let ghost before = cs.subrange(0, i as int);
        let ghost after = cs.subrange(0, i + 1);
        assert(after.drop_last() =~= before);
        assert(after.last() == chunks@[i as int]@);
        proof {
            lemma_chunks_size_prefix(cs, i as int);
        }
        if t < SIZE_LIMIT {
            let len = chunks[i].data.len();
            if len as u64 >= SIZE_LIMIT || SIZE_LIMIT - t <= 8 + len as u64 + (len as u64) % 2 {
                t = SIZE_LIMIT;
            } else {
                t = t + 8 + len as u64 + (len as u64) % 2;
            }
        }
        i += 1;
    }
    assert(cs.subrange(0, i as int) =~= cs);
    t
}

/// Adds the on-disk size of one chunk to a running total, stopping at
/// [`SIZE_LIMIT`].
fn add_chunk_size(total: u64, chunk: &WavChunk) -> (r: u64)
    requires
        total <= SIZE_LIMIT,
    ensures
        r == if total + chunk_size(chunk@) < SIZE_LIMIT {
            total + chunk_size(chunk@)
        } else {
            SIZE_LIMIT as int
        },
{
    if total >= SIZE_LIMIT {
        return SIZE_LIMIT;
    }
    let len = chunk.data.len();
    if len as u64 >= SIZE_LIMIT || SIZE_LIMIT - total <= 8 + len as u64 + (len as u64) % 2 {
        SIZE_LIMIT
    } else {
        total + 8 + len as u64 + (len as u64) % 2
    }
}

/// Appends the bytes of a list of chunks whose payloads fit the size field.
fn write_chunks(chunks: &Vec<WavChunk>, out: &mut Vec<u8>)
    requires
        chunks_fit(chunk_views(chunks@)),
    ensures
        final(out)@ == old(out)@ + chunks_bytes(chunk_views(chunks@)),
{
    let ghost cs = chunk_views(chunks@);
    let mut i: usize = 0;
    assert(cs.subrange(0, 0) =~= Seq::<ChunkView>::empty());
    assert(old(out)@ + chunks_bytes(cs.subrange(0, 0)) =~= old(out)@);
    while i < chunks.len()
        invariant
            i <= chunks@.len(),
            cs == chunk_views(chunks@),
            chunks_fit(cs),
            out@ == old(out)@ + chunks_bytes(cs.subrange(0, i as int)),
        decreases chunks@.len() - i,
    {
        let ghost prev = out@;
        assert(cs[i as int].data.len() <= u32::MAX);
        let w = chunks[i].write(out);
        let ghost after = cs.subrange(0, i + 1);
        assert(after.drop_last() =~= cs.subrange(0, i as int));
        assert(after.last() == chunks@[i as int]@);
        assert(out@ =~= old(out)@ + chunks_bytes(after));
        i += 1;
    }
    assert(cs.subrange(0, i as int) =~= cs);
}

/// Whether every payload of a list of chunks fits the size field.
fn all_chunks_fit(chunks: &Vec<WavChunk>) -> (r: bool)
    ensures
        r == chunks_fit(chunk_views(chunks@)),
{
    let mut i: usize = 0;
    while i < chunks.len()
        invariant
            i <= chunks@.len(),
            forall|j: int| 0 <= j < i ==> #[trigger] chunks@[j].data@.len() <= u32::MAX,
        decreases chunks@.len() - i,
    {
        if chunks[i].data.len() > u32::MAX as usize {
            assert(chunk_views(chunks@)[i as int].data.len() > u32::MAX);
            return false;
        }
        i += 1;
    }
    assert forall|j: int| 0 <= j < chunk_views(chunks@).len() implies #[trigger] chunk_views(
        chunks@,
    )[j].data.len() <= u32::MAX by {
        assert(chunks@[j].data@.len() <= u32::MAX);
    }
    true
}

/// Appends the 12-byte RIFF/WAVE file header with the given size field.
fn write_riff_header(out: &mut Vec<u8>, riff_size: u32)
    ensures
        final(out)@ == old(out)@ + riff_header(riff_size),
{
    push_bytes(out, &RIFF);
    push_le32(out, riff_size);
    push_bytes(out, &WAVE);
    assert(final(out)@ =~= old(out)@ + riff_header(riff_size));
}

/// The bytes of a streaming WAV preamble: a RIFF header and data chunk header
/// whose sizes are `0xFFFF_FFFF`, with the chunks before them.
pub open spec fn stream_bytes(p: WavPreambleView) -> Seq<u8> {
    riff_header(0xFFFF_FFFF) + chunks_bytes(p.before_fmt) + chunk_bytes(
        fmt_chunk(p.header, p.fmt_extension),
    ) + chunks_bytes(p.before_data) + DATA@ + le32(0xFFFF_FFFF)
}

/// Whether every chunk of a streaming preamble fits the size field.
pub open spec fn stream_writable(p: WavPreambleView) -> bool {
    &&& chunks_fit(p.before_fmt)
    &&& fmt_chunk(p.header, p.fmt_extension).data.len() <= u32::MAX
    &&& chunks_fit(p.before_data)
}

impl WavChunk {
    /// Construct a chunk from its identifier and raw payload bytes.
    pub fn new(chunk_id: [u8; 4], data: Vec<u8>) -> (r: Self)
        ensures
            r.chunk_id == chunk_id,
            r.data@ == data@,
    {
        WavChunk { chunk_id, data }
    }

    /// Appends the chunk's bytes: identifier, payload size, payload and the pad
    /// byte of an odd-length payload.
    ///
    /// Fails with [`IoError::InvalidInput`], appending nothing, when the payload
    /// is too large for the 32-bit size field.
    pub fn write(&self, out: &mut Vec<u8>) -> (r: Result<(), IoError>)
        ensures
            self.data@.len() <= u32::MAX <==> r is Ok,
            r is Ok ==> final(out)@ == old(out)@ + chunk_bytes(self@),
            r is Err ==> r == Err::<(), IoError>(IoError::InvalidInput) && final(out)@ == old(
                out,
            )@,
    {
        if self.data.len() > u32::MAX as usize {
            return Err(IoError::InvalidInput);
        }
        let data_len = self.data.len() as u32;
        push_bytes(out, &self.chunk_id);
        push_le32(out, data_len);
        push_bytes(out, self.data.as_slice());
        if self.data.len() % 2 == 1 {
            out.push(0u8);
        }
        assert(final(out)@ =~= old(out)@ + chunk_bytes(self@));
        Ok(())
    }

    /// The on-disk size of the chunk, including its 8-byte header and any pad
    /// byte.
    pub fn serialized_size(&self) -> (r: usize)
        requires
            self.data@.len() + 9 <= usize::MAX,
        ensures
            r == chunk_size(self@),
    {
        8 + self.data.len() + (self.data.len() % 2)
    }
}

impl WavHeader {
    /// Decodes the header of a `b"fmt "` chunk.
    pub fn from_fmt_chunk(chunk: &WavChunk) -> (r: Result<Self, WavError>)
        requires
            chunk.chunk_id@ == FMT@,
        ensures
            match header_of_fmt(chunk.data@) {
                Ok(h) => r == Ok::<WavHeader, WavError>(h),
                Err(f) => r matches Err(e) && reports(e, f),
            },
    {
        let data = chunk.data.as_slice();
        if data.len() < 16 {
            return Err(
                WavError::InvalidChunkSize {
                    chunk_id: chunk.chunk_id,
                    found_size: size_field(data.len()),
                    expected_size: 16..=u32::MAX,
                },
            );
        }
        let tag = read_le16(data, 0);
        let bits_per_sample = read_le16(data, 14);
        let channels = read_le16(data, 2);
        let sample_rate = read_le32(data, 4);
        if tag == WAVE_FORMAT_EXTENSIBLE {
            if data.len() < 40 {
                return Err(
                    WavError::InvalidChunkSize {
                        chunk_id: chunk.chunk_id,
                        found_size: size_field(data.len()),
                        expected_size: 40..=u32::MAX,
                    },
                );
            }
            let raw_valid_bits = read_le16(data, 18);
            let valid_bits_per_sample = if raw_valid_bits == 0 {
                bits_per_sample
            } else {
                raw_valid_bits
            };
            let sub_tag = read_le16(data, 24);
            let mut suffix_matches = true;
            let mut i: usize = 0;
            while i < 14
                invariant
                    0 <= i <= 14,
                    data@.len() >= 40,
                    suffix_matches == (forall|j: int|
                        0 <= j < i ==> data@[26 + j] == KS_SUBFORMAT_GUID_SUFFIX@[j]),
                decreases 14 - i,
            {
                if data[26 + i] != KS_SUBFORMAT_GUID_SUFFIX[i] {
                    suffix_matches = false;
                }
                i += 1;
            }
            proof {
                if suffix_matches {
                    assert(data@.subrange(26, 40) =~= guid_suffix());
                } else {
                    let j = choose|j: int|
                        0 <= j < 14 && data@[26 + j] != KS_SUBFORMAT_GUID_SUFFIX@[j];
                    assert(data@.subrange(26, 40)[j] != guid_suffix()[j]);
                }
            }
            let audio_format = if suffix_matches {
                WavAudioFormat::from(sub_tag)
            } else {
                WavAudioFormat::Other(sub_tag)
            };
            Ok(WavHeader { channels, sample_rate, bits_per_sample, valid_bits_per_sample, audio_format })
        } else {
            Ok(
                WavHeader {
                    channels,
                    sample_rate,
                    bits_per_sample,
                    valid_bits_per_sample: bits_per_sample,
                    audio_format: WavAudioFormat::from(tag),
                },
            )
        }
    }


    /// Whether this header requires a `WAVE_FORMAT_EXTENSIBLE` format chunk for
    /// an unambiguous representation.
    pub fn needs_extensible_format(&self) -> (r: bool)
        ensures
            r == header_needs_extensible(*self),
    {
        self.valid_bits_per_sample != self.bits_per_sample || self.channels > 2 || (matches!(
            self.audio_format,
            WavAudioFormat::Pcm
        ) && self.bits_per_sample > 16)
    }

    /// Whether the byte rate and block alignment derived from this header fit
    /// their fields, which writing the header requires.
    pub fn is_encodable(&self) -> (r: bool)
        ensures
            r == header_encodable(*self),
    {
        let rate = self.sample_rate as u64;
        let channels = self.channels as u64;
        let bytes = (self.bits_per_sample / 8) as u64;
        assert(rate * channels <= u32::MAX * u16::MAX) by (nonlinear_arith)
            requires
                rate <= u32::MAX,
                channels <= u16::MAX,
        ;
        let per_frame_rate = rate * channels;
        assert(per_frame_rate * bytes <= u32::MAX * u16::MAX * u16::MAX) by (nonlinear_arith)
            requires
                per_frame_rate <= u32::MAX * u16::MAX,
                bytes <= u16::MAX,
        ;
        assert(channels * bytes <= u16::MAX * u16::MAX) by (nonlinear_arith)
            requires
                channels <= u16::MAX,
                bytes <= u16::MAX,
        ;
        per_frame_rate <= u32::MAX as u64 && per_frame_rate * bytes <= u32::MAX as u64 && channels
            * bytes <= u16::MAX as u64
    }

    /// Builds the canonical 24-byte `WAVE_FORMAT_EXTENSIBLE` extension.
    pub fn extensible_fmt_extension(&self) -> (r: Vec<u8>)
        ensures
            r@ == canonical_extension(*self),
    {
        let mut extension: Vec<u8> = Vec::with_capacity(24);
        push_le16(&mut extension, 22u16);
        push_le16(&mut extension, self.valid_bits_per_sample);
        push_le32(&mut extension, 0u32);
        push_le16(&mut extension, u16::from(self.audio_format));
        push_bytes(&mut extension, &KS_SUBFORMAT_GUID_SUFFIX);
        extension
    }

    /// Encodes this header as a `b"fmt "` chunk followed by the given extension
    /// bytes (the canonical extensible extension when none are given and one is
    /// needed).
    pub fn into_wav_chunk(self, fmt_extension: &[u8]) -> (r: WavChunk)
        requires
            header_encodable(self),
        ensures
            r@ == fmt_chunk(self, fmt_extension@),
    {
        let needs_extensible = fmt_extension.len() >= 24 || self.needs_extensible_format();
        let extension = if fmt_extension.len() == 0 && needs_extensible {
            self.extensible_fmt_extension()
        } else {
            let mut e: Vec<u8> = Vec::new();
            push_bytes(&mut e, fmt_extension);
            e
        };
        let mut data: Vec<u8> = Vec::new();
        let format_tag = if needs_extensible {
            WAVE_FORMAT_EXTENSIBLE
        } else {
            u16::from(self.audio_format)
        };
        push_le16(&mut data, format_tag);
        push_le16(&mut data, self.channels);
        push_le32(&mut data, self.sample_rate);
        let bytes_per_sample = self.bits_per_sample / 8;
        let byte_rate = self.sample_rate * (self.channels as u32) * (bytes_per_sample as u32);
        push_le32(&mut data, byte_rate);
        let block_align = self.channels * bytes_per_sample;
        push_le16(&mut data, block_align);
        push_le16(&mut data, self.bits_per_sample);
        push_bytes(&mut data, extension.as_slice());
        assert(data@ =~= fmt_chunk_data(self, fmt_extension@));
        WavChunk::new(FMT, data)
    }
}

} // verus!
