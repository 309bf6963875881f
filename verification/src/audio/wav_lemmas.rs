//! What reading gives back of what writing wrote.

use vstd::prelude::*;

use crate::audio::wav::{
    block_align, byte_rate, canonical_extension, chunk_bytes, chunk_size, chunks_bytes, chunks_fit,
    chunks_from, chunks_size, fmt_chunk_data, format_canonical, format_of_tag, format_tag, guid_suffix,
    header_encodable, header_needs_extensible, header_of_fmt, preamble_from, uses_extensible,
    written_extension, ChunkView, PreambleProgress, WavHeader, DATA, FMT, KS_SUBFORMAT_GUID_SUFFIX,
    WAVE_FORMAT_EXTENSIBLE, data_chunk, empty_progress, fmt_chunk, lemma_chunks_fit,
    lemma_chunks_size_prefix, preamble_of, riff_failure, riff_header, riff_size, wav_bytes, wav_of,
    WavView, RIFF, WAVE, stream_bytes, WavPreambleView,
};
use crate::io::bytes::{le16, le16_at, le16_value, le32, le32_at, le32_value, lemma_le16, lemma_le32};
use crate::io::enc_dec::IoError;

verus! {

/// Whether every chunk of a list has a 4-byte identifier.
pub open spec fn chunk_ids_sized(cs: Seq<ChunkView>) -> bool {
    forall|i: int| 0 <= i < cs.len() ==> (#[trigger] cs[i]).id.len() == 4
}

/// Whether every chunk of a list has a 4-byte identifier that is neither
/// `b"fmt "` nor `b"data"`, so a reader keeps it as a generic chunk.
pub open spec fn chunk_ids_plain(cs: Seq<ChunkView>) -> bool {
    forall|i: int|
        0 <= i < cs.len() ==> (#[trigger] cs[i]).id.len() == 4 && cs[i].id != FMT@ && cs[i].id
            != DATA@
}

/// The length of a chunk's bytes is its on-disk size.
proof fn lemma_chunk_bytes_len(c: ChunkView)
    requires
        c.id.len() == 4,
    ensures
        chunk_bytes(c).len() == chunk_size(c),
{
}

/// The length of a list's bytes is its on-disk size.
proof fn lemma_chunks_bytes_len(cs: Seq<ChunkView>)
    requires
        chunk_ids_sized(cs),
    ensures
        chunks_bytes(cs).len() == chunks_size(cs),
        chunks_size(cs) >= 0,
    decreases cs.len(),
{
    if cs.len() > 0 {
        lemma_chunks_bytes_len(cs.drop_last());
        lemma_chunk_bytes_len(cs.last());
    }
}

/// The fields of a chunk whose bytes stand at `q`.
proof fn lemma_chunk_fields_at(s: Seq<u8>, q: int, c: ChunkView)
    requires
        0 <= q,
        c.id.len() == 4,
        c.data.len() <= u32::MAX,
        q + chunk_size(c) <= s.len(),
        s.subrange(q, q + chunk_size(c)) == chunk_bytes(c),
    ensures
        s.len() - q >= 8,
        s.subrange(q, q + 4) == c.id,
        le32_at(s, q + 4) == c.data.len(),
        s.len() - q - 8 >= le32_at(s, q + 4) + le32_at(s, q + 4) % 2,
        s.subrange(q + 8, q + 8 + le32_at(s, q + 4)) == c.data,
        q + 8 + le32_at(s, q + 4) + le32_at(s, q + 4) % 2 == q + chunk_size(c),
{
    let b = chunk_bytes(c);
    let n = c.data.len() as u32;
    lemma_chunk_bytes_len(c);
    assert(s.subrange(q, q + 4) =~= c.id) by {
        assert forall|i: int| 0 <= i < 4 implies s.subrange(q, q + 4)[i] == c.id[i] by {
            assert(s[q + i] == s.subrange(q, q + chunk_size(c))[i]);
        }
    }
    assert(s[q + 4] == b[4] && s[q + 5] == b[5] && s[q + 6] == b[6] && s[q + 7] == b[7]) by {
        assert(s[q + 4] == s.subrange(q, q + chunk_size(c))[4]);
        assert(s[q + 5] == s.subrange(q, q + chunk_size(c))[5]);
        assert(s[q + 6] == s.subrange(q, q + chunk_size(c))[6]);
        assert(s[q + 7] == s.subrange(q, q + chunk_size(c))[7]);
    }
    assert(b[4] == le32(n)[0] && b[5] == le32(n)[1] && b[6] == le32(n)[2] && b[7] == le32(n)[3]);
    lemma_le32(n, 0, 0, 0, 0);
    assert(le32_at(s, q + 4) == n);
    assert(s.subrange(q + 8, q + 8 + n) =~= c.data) by {
        assert forall|i: int| 0 <= i < n implies s.subrange(q + 8, q + 8 + n)[i] == c.data[i] by {
            assert(s[q + 8 + i] == s.subrange(q, q + chunk_size(c))[8 + i]);
            assert(b[8 + i] == c.data[i]);
        }
    }
}

/// A reader before the data chunk collects a chunk it is given.
pub open spec fn collect(p: PreambleProgress, c: ChunkView) -> PreambleProgress {
    if p.fmt is Some {
        PreambleProgress { before_fmt: p.before_fmt, fmt: p.fmt, before_data: p.before_data.push(c) }
    } else {
        PreambleProgress { before_fmt: p.before_fmt.push(c), fmt: p.fmt, before_data: p.before_data }
    }
}

/// A reader before the data chunk collects the chunks it is given.
pub open spec fn collect_all(p: PreambleProgress, cs: Seq<ChunkView>) -> PreambleProgress {
    if p.fmt is Some {
        PreambleProgress { before_fmt: p.before_fmt, fmt: p.fmt, before_data: p.before_data + cs }
    } else {
        PreambleProgress { before_fmt: p.before_fmt + cs, fmt: p.fmt, before_data: p.before_data }
    }
}

/// Reading a generic chunk before the data chunk collects it.
proof fn lemma_preamble_step(s: Seq<u8>, q: int, p: PreambleProgress, c: ChunkView)
    requires
        0 <= q,
        c.id.len() == 4,
        c.id != FMT@,
        c.id != DATA@,
        c.data.len() <= u32::MAX,
        q + chunk_size(c) <= s.len(),
        s.subrange(q, q + chunk_size(c)) == chunk_bytes(c),
    ensures
        preamble_from(s, q, p) == preamble_from(s, q + chunk_size(c), collect(p, c)),
{
    lemma_chunk_fields_at(s, q, c);
    let read = ChunkView {
        id: s.subrange(q, q + 4),
        data: s.subrange(q + 8, q + 8 + le32_at(s, q + 4)),
    };
    assert(read == c);
}

/// Reading generic chunks before the data chunk collects them in order.
proof fn lemma_preamble_chunks(s: Seq<u8>, q: int, p: PreambleProgress, cs: Seq<ChunkView>)
    requires
        0 <= q,
        chunk_ids_plain(cs),
        chunks_fit(cs),
        q + chunks_size(cs) <= s.len(),
        s.subrange(q, q + chunks_size(cs)) == chunks_bytes(cs),
    ensures
        preamble_from(s, q, p) == preamble_from(s, q + chunks_size(cs), collect_all(p, cs)),
    decreases cs.len(),
{
    if cs.len() == 0 {
        assert(p.before_fmt + cs =~= p.before_fmt);
        assert(p.before_data + cs =~= p.before_data);
        assert(collect_all(p, cs) == p);
    } else {
        let dl = cs.drop_last();
        let c = cs.last();
        assert(chunk_ids_plain(dl) && chunk_ids_sized(dl)) by {
            assert forall|i: int| 0 <= i < dl.len() implies (#[trigger] dl[i]).id.len() == 4
                && dl[i].id != FMT@ && dl[i].id != DATA@ by {
                assert(dl[i] == cs[i]);
            }
        }
        assert(chunks_fit(dl)) by {
            assert forall|i: int| 0 <= i < dl.len() implies #[trigger] dl[i].data.len()
                <= u32::MAX by {
                assert(dl[i] == cs[i]);
            }
        }
        assert(c == cs[cs.len() - 1]);
        lemma_chunks_bytes_len(dl);
        lemma_chunk_bytes_len(c);
        let m = q + chunks_size(dl);
        assert(s.subrange(q, m) =~= chunks_bytes(dl)) by {
            assert(s.subrange(q, m) =~= s.subrange(q, q + chunks_size(cs)).subrange(
                0,
                chunks_size(dl),
            ));
        }
        assert(s.subrange(m, m + chunk_size(c)) =~= chunk_bytes(c)) by {
            assert(s.subrange(m, m + chunk_size(c)) =~= s.subrange(
                q,
                q + chunks_size(cs),
            ).subrange(chunks_size(dl), chunks_size(cs)));
        }
        lemma_preamble_chunks(s, q, p, dl);
        lemma_preamble_step(s, m, collect_all(p, dl), c);
        assert((p.before_fmt + dl).push(c) =~= p.before_fmt + cs);
        assert((p.before_data + dl).push(c) =~= p.before_data + cs);
        assert(collect(collect_all(p, dl), c) == collect_all(p, cs));
    }
}

/// Reading the chunks after the data collects them in order.
proof fn lemma_chunks_from(s: Seq<u8>, q: int, acc: Seq<ChunkView>, cs: Seq<ChunkView>)
    requires
        0 <= q,
        chunk_ids_sized(cs),
        chunks_fit(cs),
        q + chunks_size(cs) <= s.len(),
        s.subrange(q, q + chunks_size(cs)) == chunks_bytes(cs),
    ensures
        chunks_from(s, q, acc) == chunks_from(s, q + chunks_size(cs), acc + cs),
    decreases cs.len(),
{
    if cs.len() == 0 {
        assert(acc + cs =~= acc);
    } else {
        let dl = cs.drop_last();
        let c = cs.last();
        assert(chunk_ids_sized(dl)) by {
            assert forall|i: int| 0 <= i < dl.len() implies (#[trigger] dl[i]).id.len() == 4 by {
                assert(dl[i] == cs[i]);
            }
        }
        assert(chunks_fit(dl)) by {
            assert forall|i: int| 0 <= i < dl.len() implies #[trigger] dl[i].data.len()
                <= u32::MAX by {
                assert(dl[i] == cs[i]);
            }
        }
        assert(c == cs[cs.len() - 1]);
        lemma_chunks_bytes_len(dl);
        lemma_chunk_bytes_len(c);
        let m = q + chunks_size(dl);
        assert(s.subrange(q, m) =~= chunks_bytes(dl)) by {
            assert(s.subrange(q, m) =~= s.subrange(q, q + chunks_size(cs)).subrange(
                0,
                chunks_size(dl),
            ));
        }
        assert(s.subrange(m, m + chunk_size(c)) =~= chunk_bytes(c)) by {
            assert(s.subrange(m, m + chunk_size(c)) =~= s.subrange(
                q,
                q + chunks_size(cs),
            ).subrange(chunks_size(dl), chunks_size(cs)));
        }
        lemma_chunks_from(s, q, acc, dl);
        lemma_chunk_fields_at(s, m, c);
        let read = ChunkView {
            id: s.subrange(m, m + 4),
            data: s.subrange(m + 8, m + 8 + le32_at(s, m + 4)),
        };
        assert(read == c);
        assert((acc + dl).push(c) =~= acc + cs);
    }
}


/// Whether a header is written so that reading the format chunk back gives the
/// same header: its format in named form, a plain format tag that does not
/// read as extensible, and a zero valid-bits count only for zero-bit samples
/// (a zero in an extensible chunk reads back as "all bits valid").
pub open spec fn header_round_trips(h: WavHeader) -> bool {
    &&& header_encodable(h)
    &&& format_canonical(h.audio_format)
    &&& !header_needs_extensible(h) ==> format_tag(h.audio_format) != WAVE_FORMAT_EXTENSIBLE
    &&& h.valid_bits_per_sample == 0 ==> h.bits_per_sample == 0
}

/// The format chunk written for a header holds 16 base bytes followed by the
/// extension bytes written.
proof fn lemma_fmt_chunk_layout(h: WavHeader, ext: Seq<u8>)
    ensures
        fmt_chunk_data(h, ext).len() == 16 + written_extension(h, ext).len(),
        fmt_chunk_data(h, ext).subrange(16, fmt_chunk_data(h, ext).len() as int)
            == written_extension(h, ext),
{
    let d = fmt_chunk_data(h, ext);
    let base = le16(
        if uses_extensible(h, ext) {
            WAVE_FORMAT_EXTENSIBLE
        } else {
            format_tag(h.audio_format)
        },
    ) + le16(h.channels) + le32(h.sample_rate) + le32(byte_rate(h) as u32) + le16(
        block_align(h) as u16,
    ) + le16(h.bits_per_sample);
    assert(base.len() == 16);
    assert(d == base + written_extension(h, ext));
    assert(d.subrange(16, d.len() as int) =~= written_extension(h, ext));
}

/// A header can be written exactly when its sample rate times its channel
/// count, the byte rate (that product times the container bytes per sample)
/// and the block alignment (channels times container bytes per sample) fit
/// their fields. The format chunk written for it then holds, little-endian,
/// the channel count at offset 2, the sample rate at 4, the byte rate at 8,
/// the block alignment at 12 and the container bits per sample at 14. The
/// block alignment counts `bits_per_sample`, not `valid_bits_per_sample`, and
/// the byte rate is the sample rate times the block alignment.
pub proof fn lemma_fmt_chunk_fields(h: WavHeader, ext: Seq<u8>)
    ensures
        header_encodable(h) <==> ({
            &&& h.sample_rate * h.channels <= u32::MAX
            &&& h.sample_rate * h.channels * (h.bits_per_sample / 8) <= u32::MAX
            &&& h.channels * (h.bits_per_sample / 8) <= u16::MAX
        }),
        header_encodable(h) ==> ({
            let d = fmt_chunk_data(h, ext);
            &&& d.len() >= 16
            &&& le16_at(d, 2) == h.channels
            &&& le32_at(d, 4) == h.sample_rate
            &&& le32_at(d, 8) == h.sample_rate * h.channels * (h.bits_per_sample / 8)
            &&& le16_at(d, 12) == h.channels * (h.bits_per_sample / 8)
            &&& le32_at(d, 8) == h.sample_rate * le16_at(d, 12)
            &&& le16_at(d, 14) == h.bits_per_sample
        }),
{
    let bytes: int = (h.bits_per_sample / 8) as int;
    vstd::arithmetic::mul::lemma_mul_is_associative(h.sample_rate as int, h.channels as int, bytes);
    if header_encodable(h) {
        let d = fmt_chunk_data(h, ext);
        let tag: u16 = if uses_extensible(h, ext) {
            WAVE_FORMAT_EXTENSIBLE
        } else {
            format_tag(h.audio_format)
        };
        let br = byte_rate(h) as u32;
        let ba = block_align(h) as u16;
        assert(d =~= le16(tag) + le16(h.channels) + le32(h.sample_rate) + le32(br) + le16(ba)
            + le16(h.bits_per_sample) + written_extension(h, ext));
        lemma_le16(h.channels, 0, 0);
        lemma_le32(h.sample_rate, 0, 0, 0, 0);
        lemma_le32(br, 0, 0, 0, 0);
        lemma_le16(ba, 0, 0);
        lemma_le16(h.bits_per_sample, 0, 0);
        assert(le16_at(d, 2) == h.channels);
        assert(le32_at(d, 4) == h.sample_rate);
        assert(le32_at(d, 8) == br);
        assert(le16_at(d, 12) == ba);
        assert(le16_at(d, 14) == h.bits_per_sample);
    }
}

/// Whether the format chunk written for a header and extension bytes reads
/// back as the same header (the extension read back is then the one written).
pub open spec fn fmt_round_trips(h: WavHeader, ext: Seq<u8>) -> bool {
    &&& header_encodable(h)
    &&& header_of_fmt(fmt_chunk_data(h, ext)) == Ok::<WavHeader, crate::audio::wav::WavFailure>(h)
}

/// Decoding the format chunk written for a header, with no extension bytes of
/// its own, gives the header back, and the extension read back is the one
/// written.
pub proof fn lemma_fmt_chunk_round_trip(h: WavHeader)
    requires
        header_round_trips(h),
    ensures
        header_of_fmt(fmt_chunk_data(h, Seq::empty())) == Ok::<WavHeader, crate::audio::wav::WavFailure>(h),
        fmt_chunk_data(h, Seq::empty()).len() >= 16,
        fmt_chunk_data(h, Seq::empty()).subrange(16, fmt_chunk_data(h, Seq::empty()).len() as int)
            == written_extension(h, Seq::empty()),
{
    let e = Seq::<u8>::empty();
    let d = fmt_chunk_data(h, e);
    let ext = written_extension(h, e);
    let tag: u16 = if uses_extensible(h, e) {
        WAVE_FORMAT_EXTENSIBLE
    } else {
        format_tag(h.audio_format)
    };
    let br = byte_rate(h) as u32;
    let ba = block_align(h) as u16;
    assert(d =~= le16(tag) + le16(h.channels) + le32(h.sample_rate) + le32(br) + le16(ba) + le16(
        h.bits_per_sample,
    ) + ext);
    lemma_le16(tag, 0, 0);
    lemma_le16(h.channels, 0, 0);
    lemma_le32(h.sample_rate, 0, 0, 0, 0);
    lemma_le16(h.bits_per_sample, 0, 0);
    assert(le16_at(d, 0) == tag);
    assert(le16_at(d, 2) == h.channels);
    assert(le32_at(d, 4) == h.sample_rate);
    assert(le16_at(d, 14) == h.bits_per_sample);
    assert(d.subrange(16, d.len() as int) =~= ext);
    if uses_extensible(h, e) {
        let ftag = format_tag(h.audio_format);
        assert(ext =~= le16(22) + le16(h.valid_bits_per_sample) + le32(0) + le16(ftag)
            + guid_suffix());
        assert(guid_suffix().len() == 14);
        assert(d.len() == 40);
        lemma_le16(h.valid_bits_per_sample, 0, 0);
        lemma_le16(ftag, 0, 0);
        assert(le16_at(d, 18) == h.valid_bits_per_sample);
        assert(le16_at(d, 24) == ftag);
        assert(d.subrange(26, 40) =~= guid_suffix());
        assert(format_of_tag(ftag) == h.audio_format);
    } else {
        assert(ext =~= e);
        assert(d.len() == 16);
        assert(format_of_tag(tag) == h.audio_format);
    }
}


/// Whether writing a WAV value and reading the bytes back gives the value back
/// (with the format chunk's extension as written): the file fits the 32-bit
/// RIFF size, the format chunk written for the header and extension reads back
/// as the header, and the chunks before the payload are neither format nor
/// data chunks.
pub open spec fn wav_round_trips(w: WavView) -> bool {
    &&& riff_size(w) <= u32::MAX
    &&& fmt_round_trips(w.header, w.fmt_extension)
    &&& chunk_ids_plain(w.before_fmt)
    &&& chunk_ids_plain(w.before_data)
    &&& chunk_ids_sized(w.after_data)
}

/// Two adjacent parts of a concatenation are found where they were put.
proof fn lemma_concat_parts(a: Seq<u8>, b: Seq<u8>)
    ensures
        (a + b).subrange(0, a.len() as int) =~= a,
        (a + b).subrange(a.len() as int, (a.len() + b.len()) as int) =~= b,
{
}

/// A part of the first half of a concatenation is a part of the whole.
proof fn lemma_subrange_of_prefix(s: Seq<u8>, k: int, x: int, y: int)
    requires
        0 <= x <= y <= k <= s.len(),
    ensures
        s.subrange(0, k).subrange(x, y) =~= s.subrange(x, y),
{
}

/// Where the parts of a written WAV file stand.
proof fn lemma_wav_layout(w: WavView)
    requires
        wav_round_trips(w),
    ensures
        ({
            let l1 = chunks_size(w.before_fmt);
            let lf = chunk_size(fmt_chunk(w.header, w.fmt_extension));
            let l2 = chunks_size(w.before_data);
            let ld = chunk_size(data_chunk(w.data));
            let l3 = chunks_size(w.after_data);
            let s = wav_bytes(w);
            &&& l1 >= 0 && l2 >= 0 && l3 >= 0
            &&& s.len() == 12 + l1 + lf + l2 + ld + l3
            &&& s.subrange(0, 4) == RIFF@
            &&& s.subrange(8, 12) == WAVE@
            &&& s.subrange(12, 12 + l1) == chunks_bytes(w.before_fmt)
            &&& s.subrange(12 + l1, 12 + l1 + lf) == chunk_bytes(fmt_chunk(w.header, w.fmt_extension))
            &&& s.subrange(12 + l1 + lf, 12 + l1 + lf + l2) == chunks_bytes(w.before_data)
            &&& s.subrange(12 + l1 + lf + l2, 12 + l1 + lf + l2 + ld) == chunk_bytes(data_chunk(w.data))
            &&& s.subrange(12 + l1 + lf + l2 + ld, s.len() as int) == chunks_bytes(w.after_data)
        }),
{
    let h = w.header;
    let fc = fmt_chunk(h, w.fmt_extension);
    let dc = data_chunk(w.data);
    let hdr = riff_header(riff_size(w) as u32);
    let b1 = chunks_bytes(w.before_fmt);
    let bf = chunk_bytes(fc);
    let b2 = chunks_bytes(w.before_data);
    let bd = chunk_bytes(dc);
    let b3 = chunks_bytes(w.after_data);
    assert(FMT@.len() == 4 && DATA@.len() == 4 && RIFF@.len() == 4 && WAVE@.len() == 4);
    lemma_chunk_bytes_len(fc);
    lemma_chunk_bytes_len(dc);
    lemma_chunks_bytes_len(w.before_fmt);
    lemma_chunks_bytes_len(w.before_data);
    lemma_chunks_bytes_len(w.after_data);
    let a1 = hdr + b1;
    let a2 = a1 + bf;
    let a3 = a2 + b2;
    let a4 = a3 + bd;
    let s = a4 + b3;
    assert(s == wav_bytes(w));
    lemma_concat_parts(hdr, b1);
    lemma_concat_parts(a1, bf);
    lemma_concat_parts(a2, b2);
    lemma_concat_parts(a3, bd);
    lemma_concat_parts(a4, b3);
    let k1 = a1.len() as int;
    let k2 = a2.len() as int;
    let k3 = a3.len() as int;
    let k4 = a4.len() as int;
    lemma_subrange_of_prefix(s, k4, k3, k4);
    lemma_subrange_of_prefix(a4, k3, k2, k3);
    lemma_subrange_of_prefix(s, k4, k2, k3);
    lemma_subrange_of_prefix(a3, k2, k1, k2);
    lemma_subrange_of_prefix(a4, k3, k1, k2);
    lemma_subrange_of_prefix(s, k4, k1, k2);
    lemma_subrange_of_prefix(a2, k1, 12, k1);
    lemma_subrange_of_prefix(a3, k2, 12, k1);
    lemma_subrange_of_prefix(a4, k3, 12, k1);
    lemma_subrange_of_prefix(s, k4, 12, k1);
    assert(s.subrange(0, 4) =~= RIFF@) by {
        assert forall|i: int| 0 <= i < 4 implies s.subrange(0, 4)[i] == RIFF@[i] by {
            assert(s[i] == hdr[i]);
        }
    }
    assert(s.subrange(8, 12) =~= WAVE@) by {
        assert forall|i: int| 0 <= i < 4 implies s.subrange(8, 12)[i] == WAVE@[i] by {
            assert(s[8 + i] == hdr[8 + i]);
        }
    }
}

/// Reading the bytes that writing a WAV value produces gives the value back,
/// its format extension being the one the writer chose.
pub proof fn lemma_wav_write_read(w: WavView)
    requires
        wav_round_trips(w),
    ensures
        wav_of(wav_bytes(w)) == Ok::<WavView, crate::audio::wav::WavFailure>(
            WavView {
                before_fmt: w.before_fmt,
                header: w.header,
                fmt_extension: written_extension(w.header, w.fmt_extension),
                before_data: w.before_data,
                data: w.data,
                after_data: w.after_data,
            },
        ),
{
    let h = w.header;
    let fc = fmt_chunk(h, w.fmt_extension);
    let dc = data_chunk(w.data);
    let s = wav_bytes(w);
    lemma_wav_layout(w);
    assert(FMT@[0] == 0x66 && DATA@[0] == 0x64 && FMT@.len() == 4 && DATA@.len() == 4);
    assert(FMT@ != DATA@);
    lemma_chunks_fit(w.before_fmt);
    lemma_chunks_fit(w.before_data);
    lemma_chunks_fit(w.after_data);
    lemma_fmt_chunk_layout(h, w.fmt_extension);
    let p1 = 12 + chunks_size(w.before_fmt);
    let p2 = p1 + chunk_size(fc);
    let p3 = p2 + chunks_size(w.before_data);
    let p4 = p3 + chunk_size(dc);
    let end = p4 + chunks_size(w.after_data);
    assert(riff_failure(s) is None);
    let e = empty_progress();
    lemma_preamble_chunks(s, 12, e, w.before_fmt);
    assert(Seq::<ChunkView>::empty() + w.before_fmt =~= w.before_fmt);
    let after_bf = PreambleProgress { before_fmt: w.before_fmt, fmt: None, before_data: Seq::empty() };
    assert(collect_all(e, w.before_fmt) == after_bf);
    let ext = written_extension(h, w.fmt_extension);
    let after_fmt = PreambleProgress {
        before_fmt: w.before_fmt,
        fmt: Some((h, ext)),
        before_data: Seq::empty(),
    };
    lemma_preamble_fmt_step(s, p1, after_bf, h, w.fmt_extension);
    lemma_preamble_chunks(s, p2, after_fmt, w.before_data);
    assert(Seq::<ChunkView>::empty() + w.before_data =~= w.before_data);
    let before_payload = PreambleProgress {
        before_fmt: w.before_fmt,
        fmt: Some((h, ext)),
        before_data: w.before_data,
    };
    assert(collect_all(after_fmt, w.before_data) == before_payload);
    lemma_chunk_fields_at(s, p3, dc);
    lemma_chunks_from(s, p4, Seq::empty(), w.after_data);
    assert(Seq::<ChunkView>::empty() + w.after_data =~= w.after_data);
    assert(chunks_from(s, end, w.after_data) == Ok::<Seq<ChunkView>, crate::audio::wav::WavFailure>(w.after_data));
}


/// Whether writing a streaming preamble and reading the bytes back gives the
/// preamble back: the format chunk written for the header and extension reads
/// back as the header, the chunks are neither format nor data chunks, and every
/// chunk fits the 32-bit size field.
pub open spec fn stream_round_trips(p: WavPreambleView) -> bool {
    &&& fmt_round_trips(p.header, p.fmt_extension)
    &&& fmt_chunk_data(p.header, p.fmt_extension).len() <= u32::MAX
    &&& chunk_ids_plain(p.before_fmt)
    &&& chunk_ids_plain(p.before_data)
    &&& chunks_fit(p.before_fmt)
    &&& chunks_fit(p.before_data)
}


/// Reading the format chunk written for a header that round-trips records the
/// header and the extension written.
proof fn lemma_preamble_fmt_step(
    s: Seq<u8>,
    q: int,
    p: PreambleProgress,
    h: WavHeader,
    ext: Seq<u8>,
)
    requires
        0 <= q,
        fmt_round_trips(h, ext),
        q + chunk_size(fmt_chunk(h, ext)) <= s.len(),
        s.subrange(q, q + chunk_size(fmt_chunk(h, ext))) == chunk_bytes(fmt_chunk(h, ext)),
        fmt_chunk_data(h, ext).len() <= u32::MAX,
    ensures
        preamble_from(s, q, p) == preamble_from(
            s,
            q + chunk_size(fmt_chunk(h, ext)),
            PreambleProgress {
                before_fmt: p.before_fmt,
                fmt: Some((h, written_extension(h, ext))),
                before_data: p.before_data,
            },
        ),
{
    let fc = fmt_chunk(h, ext);
    assert(FMT@[0] == 0x66 && DATA@[0] == 0x64 && FMT@.len() == 4 && DATA@.len() == 4);
    assert(FMT@ != DATA@);
    lemma_fmt_chunk_layout(h, ext);
    lemma_chunk_fields_at(s, q, fc);
}

/// Reading a data chunk header after the format chunk ends the preamble.
proof fn lemma_preamble_data_step(s: Seq<u8>, q: int, p: PreambleProgress)
    requires
        0 <= q,
        q + 8 <= s.len(),
        s.subrange(q, q + 4) == DATA@,
        p.fmt is Some,
    ensures
        preamble_from(s, q, p) == Ok::<(WavPreambleView, int), crate::audio::wav::WavFailure>(
            (
                WavPreambleView {
                    before_fmt: p.before_fmt,
                    header: (p.fmt->0).0,
                    fmt_extension: (p.fmt->0).1,
                    before_data: p.before_data,
                    data_size: le32_at(s, q + 4),
                },
                q + 8,
            ),
        ),
{
}

/// Where the parts of a written streaming preamble stand.
proof fn lemma_stream_layout(p: WavPreambleView)
    requires
        stream_round_trips(p),
    ensures
        ({
            let l1 = chunks_size(p.before_fmt);
            let lf = chunk_size(fmt_chunk(p.header, p.fmt_extension));
            let l2 = chunks_size(p.before_data);
            let s = stream_bytes(p);
            &&& l1 >= 0 && l2 >= 0
            &&& s.len() == 12 + l1 + lf + l2 + 8
            &&& s.subrange(0, 4) == RIFF@
            &&& s.subrange(8, 12) == WAVE@
            &&& s.subrange(12, 12 + l1) == chunks_bytes(p.before_fmt)
            &&& s.subrange(12 + l1, 12 + l1 + lf) == chunk_bytes(fmt_chunk(p.header, p.fmt_extension))
            &&& s.subrange(12 + l1 + lf, 12 + l1 + lf + l2) == chunks_bytes(p.before_data)
            &&& s.subrange(12 + l1 + lf + l2, 12 + l1 + lf + l2 + 4) == DATA@
            &&& le32_at(s, 12 + l1 + lf + l2 + 4) == 0xFFFF_FFFF
        }),
{
    let h = p.header;
    let fc = fmt_chunk(h, p.fmt_extension);
    let s = stream_bytes(p);
    let hdr = riff_header(0xFFFF_FFFF);
    let b1 = chunks_bytes(p.before_fmt);
    let bf = chunk_bytes(fc);
    let b2 = chunks_bytes(p.before_data);
    let tail = DATA@ + le32(0xFFFF_FFFF);
    assert(FMT@.len() == 4 && DATA@.len() == 4 && RIFF@.len() == 4 && WAVE@.len() == 4);
    lemma_chunk_bytes_len(fc);
    assert(chunk_ids_sized(p.before_fmt) && chunk_ids_sized(p.before_data)) by {
        assert forall|i: int| 0 <= i < p.before_fmt.len() implies (
        #[trigger] p.before_fmt[i]).id.len() == 4 by {}
        assert forall|i: int| 0 <= i < p.before_data.len() implies (
        #[trigger] p.before_data[i]).id.len() == 4 by {}
    }
    lemma_chunks_bytes_len(p.before_fmt);
    lemma_chunks_bytes_len(p.before_data);
    let a1 = hdr + b1;
    let a2 = a1 + bf;
    let a3 = a2 + b2;
    assert(s == a3 + tail);
    lemma_concat_parts(hdr, b1);
    lemma_concat_parts(a1, bf);
    lemma_concat_parts(a2, b2);
    lemma_concat_parts(a3, tail);
    let k1 = a1.len() as int;
    let k2 = a2.len() as int;
    let k3 = a3.len() as int;
    lemma_subrange_of_prefix(s, k3, k2, k3);
    lemma_subrange_of_prefix(a3, k2, k1, k2);
    lemma_subrange_of_prefix(s, k3, k1, k2);
    lemma_subrange_of_prefix(a2, k1, 12, k1);
    lemma_subrange_of_prefix(a3, k2, 12, k1);
    lemma_subrange_of_prefix(s, k3, 12, k1);
    assert(s.subrange(0, 4) =~= RIFF@) by {
        assert forall|i: int| 0 <= i < 4 implies s.subrange(0, 4)[i] == RIFF@[i] by {
            assert(s[i] == hdr[i]);
        }
    }
    assert(s.subrange(8, 12) =~= WAVE@) by {
        assert forall|i: int| 0 <= i < 4 implies s.subrange(8, 12)[i] == WAVE@[i] by {
            assert(s[8 + i] == hdr[8 + i]);
        }
    }
    assert(s.subrange(k3, k3 + 4) =~= DATA@) by {
        assert forall|i: int| 0 <= i < 4 implies s.subrange(k3, k3 + 4)[i] == DATA@[i] by {
            assert(s[k3 + i] == tail[i]);
        }
    }
    lemma_le32(0xFFFF_FFFF, 0, 0, 0, 0);
    assert(s[k3 + 4] == tail[4] && s[k3 + 5] == tail[5] && s[k3 + 6] == tail[6] && s[k3 + 7]
        == tail[7]);
}

/// Reading the bytes of a streaming preamble gives the preamble back, with the
/// writer's format extension and the streaming payload size `0xFFFF_FFFF`, and
/// the payload starting right after the bytes written.
pub proof fn lemma_stream_write_read(p: WavPreambleView)
    requires
        stream_round_trips(p),
    ensures
        preamble_of(stream_bytes(p)) == Ok::<(WavPreambleView, int), crate::audio::wav::WavFailure>(
            (
                WavPreambleView {
                    before_fmt: p.before_fmt,
                    header: p.header,
                    fmt_extension: written_extension(p.header, p.fmt_extension),
                    before_data: p.before_data,
                    data_size: 0xFFFF_FFFF,
                },
                stream_bytes(p).len() as int,
            ),
        ),
{
    let h = p.header;
    let fc = fmt_chunk(h, p.fmt_extension);
    let s = stream_bytes(p);
    lemma_stream_layout(p);
    let k1 = 12 + chunks_size(p.before_fmt);
    let k2 = k1 + chunk_size(fc);
    let k3 = k2 + chunks_size(p.before_data);
    assert(riff_failure(s) is None);
    let e = empty_progress();
    lemma_preamble_chunks(s, 12, e, p.before_fmt);
    assert(Seq::<ChunkView>::empty() + p.before_fmt =~= p.before_fmt);
    let after_bf = PreambleProgress { before_fmt: p.before_fmt, fmt: None, before_data: Seq::empty() };
    assert(collect_all(e, p.before_fmt) == after_bf);
    let ext = written_extension(h, p.fmt_extension);
    let after_fmt = PreambleProgress {
        before_fmt: p.before_fmt,
        fmt: Some((h, ext)),
        before_data: Seq::empty(),
    };
    lemma_preamble_fmt_step(s, k1, after_bf, h, p.fmt_extension);
    lemma_preamble_chunks(s, k2, after_fmt, p.before_data);
    assert(Seq::<ChunkView>::empty() + p.before_data =~= p.before_data);
    let before_payload = PreambleProgress {
        before_fmt: p.before_fmt,
        fmt: Some((h, ext)),
        before_data: p.before_data,
    };
    assert(collect_all(after_fmt, p.before_data) == before_payload);
    lemma_preamble_data_step(s, k3, before_payload);
}
/// Writing a WAV value with no format extension of its own and a header that
/// reads back from its format chunk (`header_round_trips`, within the write's
/// own precondition), whose chunks before the payload are neither format nor
/// data chunks, and reading the bytes back gives the value back: unchanged when
/// the header has a plain format chunk, and with the canonical 24-byte
/// extension when it needs the extensible form.
pub proof fn lemma_wav_write_read_canonical(w: WavView)
    requires
        riff_size(w) <= u32::MAX,
        header_round_trips(w.header),
        w.fmt_extension.len() == 0,
        chunk_ids_plain(w.before_fmt),
        chunk_ids_plain(w.before_data),
        chunk_ids_sized(w.after_data),
    ensures
        !header_needs_extensible(w.header) ==> wav_of(wav_bytes(w)) == Ok::<
            WavView,
            crate::audio::wav::WavFailure,
        >(w),
        header_needs_extensible(w.header) ==> wav_of(wav_bytes(w)) == Ok::<
            WavView,
            crate::audio::wav::WavFailure,
        >(WavView { fmt_extension: canonical_extension(w.header), ..w }),
{
    assert(w.fmt_extension =~= Seq::<u8>::empty());
    lemma_fmt_chunk_round_trip(w.header);
    lemma_wav_write_read(w);
}

/// A header that reads back from its format chunk, with no extension bytes of
/// its own, meets the streaming round-trip conditions on the format chunk, and
/// the extension written is none or the canonical one.
proof fn lemma_canonical_fmt(h: WavHeader, e: Seq<u8>)
    requires
        header_round_trips(h),
        e.len() == 0,
    ensures
        fmt_round_trips(h, e),
        fmt_chunk_data(h, e).len() <= u32::MAX,
        written_extension(h, e) == (if header_needs_extensible(h) {
            canonical_extension(h)
        } else {
            e
        }),
{
    assert(e =~= Seq::<u8>::empty());
    lemma_fmt_chunk_round_trip(h);
    lemma_fmt_chunk_layout(h, e);
    assert(guid_suffix().len() == 14);
}

/// The streaming form of [`lemma_wav_write_read_canonical`]: reading the bytes
/// of a written preamble gives it back with the extension the writer chose
/// (none, or the canonical one for an extensible header) and the streaming
/// payload size, the payload starting right after the bytes written.
#[verifier::rlimit(40)]
pub proof fn lemma_stream_write_read_canonical(p: WavPreambleView)
    requires
        header_round_trips(p.header),
        p.fmt_extension.len() == 0,
        chunk_ids_plain(p.before_fmt),
        chunk_ids_plain(p.before_data),
        chunks_fit(p.before_fmt),
        chunks_fit(p.before_data),
    ensures
        preamble_of(stream_bytes(p)) == Ok::<(WavPreambleView, int), crate::audio::wav::WavFailure>(
            (
                WavPreambleView {
                    fmt_extension: if header_needs_extensible(p.header) {
                        canonical_extension(p.header)
                    } else {
                        p.fmt_extension
                    },
                    data_size: 0xFFFF_FFFF,
                    ..p
                },
                stream_bytes(p).len() as int,
            ),
        ),
{
    lemma_canonical_fmt(p.header, p.fmt_extension);
    assert(stream_round_trips(p));
    lemma_stream_write_read(p);
}

} // verus!
