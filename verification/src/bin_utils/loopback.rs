//! The logic of sending audio from a talker to a listener and checking what
//! arrived: packet pacing, byte order, the playout buffer, and the comparison
//! of what was sent with what was received.

use vstd::prelude::*;

use crate::audio::wav::{WavAudioFormat, WavHeader};
use crate::avtp::formats::aaf::PcmFormat;
use crate::ptp_phc::time::PtpTime;

verus! {

/// The AAF sample format that carries the samples of a WAV stream: integer PCM
/// in 16-, 24- or 32-bit containers, or 32-bit IEEE floats; `None` for any
/// other encoding.
pub open spec fn pcm_format_for_wav_spec(h: WavHeader) -> Option<PcmFormat> {
    match h.audio_format {
        WavAudioFormat::Pcm => if h.bits_per_sample == 16 {
            Some(PcmFormat::Int16Bit)
        } else if h.bits_per_sample == 24 {
            Some(PcmFormat::Int24Bit)
        } else if h.bits_per_sample == 32 {
            Some(PcmFormat::Int32Bit)
        } else {
            None
        },
        WavAudioFormat::IeeeFloat => if h.bits_per_sample == 32 {
            Some(PcmFormat::Float32Bit)
        } else {
            None
        },
        WavAudioFormat::Other(_) => None,
    }
}

/// The AAF sample format that carries the samples of a WAV stream.
pub fn pcm_format_for_wav(h: &WavHeader) -> (r: Option<PcmFormat>)
    ensures
        r == pcm_format_for_wav_spec(*h),
{
    match h.audio_format {
        WavAudioFormat::Pcm => if h.bits_per_sample == 16 {
            Some(PcmFormat::Int16Bit)
        } else if h.bits_per_sample == 24 {
            Some(PcmFormat::Int24Bit)
        } else if h.bits_per_sample == 32 {
            Some(PcmFormat::Int32Bit)
        } else {
            None
        },
        WavAudioFormat::IeeeFloat => if h.bits_per_sample == 32 {
            Some(PcmFormat::Float32Bit)
        } else {
            None
        },
        WavAudioFormat::Other(_) => None,
    }
}

/// The samples per packet when none are asked for: one millisecond of audio,
/// at least one sample.
pub open spec fn default_samples_per_packet_spec(sample_rate: u32) -> u32 {
    if sample_rate / 1000 >= 1 {
        sample_rate / 1000
    } else {
        1
    }
}

/// The samples per packet when none are asked for: one millisecond of audio,
/// at least one sample.
pub fn default_samples_per_packet(sample_rate: u32) -> (r: u32)
    ensures
        r == default_samples_per_packet_spec(sample_rate),
{
    let per_ms = sample_rate / 1_000;
    if per_ms >= 1 {
        per_ms
    } else {
        1
    }
}

/// The time between packets of `samples_per_packet` samples, in nanoseconds.
pub fn packet_duration_ns(samples_per_packet: u32, sample_rate: u32) -> (r: u64)
    requires
        sample_rate > 0,
    ensures
        r == samples_per_packet * 1_000_000_000 / sample_rate as int,
{
    assert(samples_per_packet * 1_000_000_000 <= u32::MAX * 1_000_000_000) by (nonlinear_arith);
    (samples_per_packet as u64) * 1_000_000_000 / (sample_rate as u64)
}

/// When the packet with the given index is due, in nanoseconds after the first
/// one, if that fits a `u64`.
pub fn packet_send_offset_ns(index: u64, packet_duration_ns: u64) -> (r: Option<u64>)
    ensures
        index * packet_duration_ns <= u64::MAX <==> r is Some,
        r matches Some(n) ==> n == index * packet_duration_ns,
{
    index.checked_mul(packet_duration_ns)
}

/// The payload bytes of a packet of `samples_per_packet` frames of
/// `frame_size` bytes, if the product fits.
pub fn packet_payload_size(samples_per_packet: u32, frame_size: usize) -> (r: Option<usize>)
    ensures
        samples_per_packet * frame_size <= usize::MAX <==> r is Some,
        r matches Some(n) ==> n == samples_per_packet * frame_size,
{
    (samples_per_packet as usize).checked_mul(frame_size)
}

/// The playing time of `pcm_len` bytes of audio at `bytes_per_second`, in
/// nanoseconds, if it fits a `u64`.
pub fn audio_duration_ns(pcm_len: usize, bytes_per_second: u64) -> (r: Option<u64>)
    requires
        bytes_per_second > 0,
    ensures
        pcm_len * 1_000_000_000 / bytes_per_second as int <= u64::MAX <==> r is Some,
        r matches Some(n) ==> n == pcm_len * 1_000_000_000 / bytes_per_second as int,
{
    assert(pcm_len * 1_000_000_000 <= u64::MAX * 1_000_000_000) by (nonlinear_arith)
        requires
            pcm_len <= u64::MAX,
    ;
    let total = (pcm_len as u128) * 1_000_000_000u128 / (bytes_per_second as u128);
    if total > u64::MAX as u128 {
        None
    } else {
        Some(total as u64)
    }
}


/// The bytes with the order reversed within every whole word of `w` bytes; a
/// trailing partial word stays as it is.
pub open spec fn word_swapped(s: Seq<u8>, w: nat) -> Seq<u8> {
    Seq::new(
        s.len(),
        |i: int|
            if i < s.len() - (s.len() as int) % (w as int) {
                s[i - i % (w as int) + (w - 1 - i % (w as int))]
            } else {
                s[i]
            },
    )
}

/// The position a byte of a whole word moves to when the word is reversed: it
/// stays in the same word, at the mirrored offset.
proof fn lemma_mirror(i: int, w: int, len: int)
    requires
        w > 0,
        0 <= i < len - len % w,
    ensures
        ({
            let m = i - i % w + (w - 1 - i % w);
            &&& 0 <= m < len - len % w
            &&& m % w == w - 1 - i % w
            &&& m - m % w == i - i % w
        }),
{
    let q = i / w;
    let r = i % w;
    vstd::arithmetic::div_mod::lemma_fundamental_div_mod(i, w);
    vstd::arithmetic::div_mod::lemma_fundamental_div_mod(len, w);
    vstd::arithmetic::div_mod::lemma_mod_bound(i, w);
    vstd::arithmetic::div_mod::lemma_mod_bound(len, w);
    let lq = len / w;
    let m = i - r + (w - 1 - r);
    assert(m == q * w + (w - 1 - r)) by (nonlinear_arith)
        requires
            i == w * q + r,
            m == i - r + (w - 1 - r),
    ;
    vstd::arithmetic::div_mod::lemma_fundamental_div_mod_converse(m, w, q, w - 1 - r);
    assert(q < lq) by (nonlinear_arith)
        requires
            w * q <= i,
            i < w * lq,
            w > 0,
    ;
    assert(w * q + w <= w * lq) by (nonlinear_arith)
        requires
            q < lq,
            w > 0,
    ;
}

/// Reversing the bytes of every whole word twice gives the bytes back: what
/// the listener's swap makes of what the talker's swap made is the talker's
/// input.
pub proof fn lemma_word_swap_involution(s: Seq<u8>, w: nat)
    requires
        w > 0,
    ensures
        word_swapped(word_swapped(s, w), w) == s,
{
    let once = word_swapped(s, w);
    let twice = word_swapped(once, w);
    let wi = w as int;
    let len = s.len() as int;
    assert forall|i: int| 0 <= i < len implies twice[i] == s[i] by {
        if i < len - len % wi {
            lemma_mirror(i, wi, len);
            let m = i - i % wi + (wi - 1 - i % wi);
            lemma_mirror(m, wi, len);
            assert(once[m] == s[m - m % wi + (wi - 1 - m % wi)]);
        }
    }
    assert(twice =~= s);
}

/// A multiple of the word size, as its quotient times the size.
proof fn lemma_multiple(p: int, w: int)
    requires
        w > 0,
        p % w == 0,
    ensures
        p == (p / w) * w,
{
    vstd::arithmetic::div_mod::lemma_fundamental_div_mod(p, w);
    assert(w * (p / w) == (p / w) * w) by (nonlinear_arith);
}

/// Positions inside a word that starts at a multiple of the word size.
proof fn lemma_word_position(p: int, j: int, w: int, len: int)
    requires
        w > 0,
        p >= 0,
        p % w == 0,
        0 <= j < w,
        p + w <= len,
    ensures
        (p + j) % w == j,
        p + j < len - len % w,
{
    lemma_multiple(p, w);
    let q = p / w;
    vstd::arithmetic::div_mod::lemma_fundamental_div_mod_converse(p + j, w, q, j);
    assert(p + w == (q + 1) * w) by (nonlinear_arith)
        requires
            p == q * w,
    ;
    vstd::arithmetic::div_mod::lemma_fundamental_div_mod_converse(p + w, w, q + 1, 0);
    vstd::arithmetic::div_mod::lemma_div_is_ordered(p + w, len, w);
    vstd::arithmetic::div_mod::lemma_fundamental_div_mod(len, w);
    let lq = len / w;
    assert(len - len % w == lq * w) by (nonlinear_arith)
        requires
            len == w * lq + len % w,
    ;
    assert((q + 1) * w <= lq * w) by (nonlinear_arith)
        requires
            q + 1 <= lq,
            w > 0,
    ;
}

/// Where whole words end.
proof fn lemma_words_end(p: int, w: int, len: int)
    requires
        w > 0,
        p >= 0,
        p % w == 0,
        p <= len < p + w,
    ensures
        p == len - len % w,
{
    lemma_multiple(p, w);
    vstd::arithmetic::div_mod::lemma_fundamental_div_mod_converse(len, w, p / w, len - p);
}

/// The next word starts at a multiple of the word size.
proof fn lemma_next_word(p: int, w: int)
    requires
        w > 0,
        p >= 0,
        p % w == 0,
    ensures
        (p + w) % w == 0,
{
    lemma_multiple(p, w);
    let q = p / w;
    assert(p + w == (q + 1) * w) by (nonlinear_arith)
        requires
            p == q * w,
    ;
    vstd::arithmetic::div_mod::lemma_fundamental_div_mod_converse(p + w, w, q + 1, 0);
}

/// Reverses the byte order within every whole word of `word_size` bytes,
/// leaving a trailing partial word as it is.
pub fn swap_byte_order(buf: &mut Vec<u8>, word_size: usize)
    requires
        word_size > 0,
    ensures
        final(buf)@ == word_swapped(old(buf)@, word_size as nat),
{
    let len = buf.len();
    let w = word_size;
    let ghost src = buf@;
    let ghost target = word_swapped(src, w as nat);
    let mut out: Vec<u8> = Vec::with_capacity(len);
    let mut p: usize = 0;
    while len - p >= w
        invariant
            len == src.len(),
            buf@ == src,
            target == word_swapped(src, w as nat),
            w > 0,
            p <= len,
            p as int % w as int == 0,
            out@.len() == p,
            forall|k: int| 0 <= k < p ==> #[trigger] out@[k] == target[k],
        decreases len - p,
    {
        let mut j: usize = 0;
        while j < w
            invariant
                len == src.len(),
                buf@ == src,
                target == word_swapped(src, w as nat),
                w > 0,
                p + w <= len,
                p as int % w as int == 0,
                j <= w,
                out@.len() == p + j,
                forall|k: int| 0 <= k < p + j ==> #[trigger] out@[k] == target[k],
            decreases w - j,
        {
            proof {
                lemma_word_position(p as int, j as int, w as int, len as int);
            }
            out.push(buf[p + w - 1 - j]);
            j += 1;
        }
        proof {
            lemma_next_word(p as int, w as int);
        }
        p = p + w;
    }
    proof {
        lemma_words_end(p as int, w as int, len as int);
    }
    let mut k: usize = p;
    while k < len
        invariant
            len == src.len(),
            buf@ == src,
            target == word_swapped(src, w as nat),
            w > 0,
            p <= k <= len,
            p == len - len as int % w as int,
            out@.len() == k,
            forall|i: int| 0 <= i < k ==> #[trigger] out@[i] == target[i],
        decreases len - k,
    {
        out.push(buf[k]);
        k += 1;
    }
    assert(out@ =~= target);
    *buf = out;
}


/// The sequence number and AVTP timestamp of a packet, which the listener
/// must see as the talker sent them.
#[derive(Debug, Clone, Copy, PartialEq, Eq, Structural)]
pub struct PacketMeta {
    /// AVTP sequence number.
    pub seq_num: u8,
    /// Embedded AVTP presentation timestamp.
    pub avtp_timestamp: u32,
}

/// The comparison of what a talker sent with what a listener received.
#[derive(Debug, Clone, Copy, PartialEq, Eq, Structural)]
pub struct TransferReport {
    /// Packets sent.
    pub packets_sent: usize,
    /// Packets received.
    pub packets_received: usize,
    /// Packets sent but not received (none when more arrived).
    pub packets_lost: usize,
    /// The first packet, among those both sides have, whose sequence number or
    /// timestamp differs.
    pub first_metadata_mismatch: Option<usize>,
    /// Audio bytes sent.
    pub pcm_bytes_sent: usize,
    /// Audio bytes received.
    pub pcm_bytes_received: usize,
    /// The first byte, among those both sides have, that differs.
    pub first_pcm_mismatch: Option<usize>,
}

/// Whether `r` is the first position, among those both sequences have, where
/// they differ (`None` when they agree on all of them).
pub open spec fn first_difference<T>(a: Seq<T>, b: Seq<T>, r: Option<usize>) -> bool {
    match r {
        Some(i) => {
            &&& i < a.len()
            &&& i < b.len()
            &&& a[i as int] != b[i as int]
            &&& forall|j: int| 0 <= j < i ==> a[j] == b[j]
        },
        None => forall|j: int| 0 <= j < a.len() && j < b.len() ==> a[j] == b[j],
    }
}

/// The first position where two packet lists differ.
fn first_packet_mismatch(a: &[PacketMeta], b: &[PacketMeta]) -> (r: Option<usize>)
    ensures
        first_difference(a@, b@, r),
{
    let mut i: usize = 0;
    while i < a.len() && i < b.len()
        invariant
            i <= a@.len(),
            i <= b@.len(),
            forall|j: int| 0 <= j < i ==> a@[j] == b@[j],
        decreases a@.len() - i,
    {
        if a[i].seq_num != b[i].seq_num || a[i].avtp_timestamp != b[i].avtp_timestamp {
            return Some(i);
        }
        i += 1;
    }
    None
}

/// The first position where two byte lists differ.
fn first_byte_mismatch(a: &[u8], b: &[u8]) -> (r: Option<usize>)
    ensures
        first_difference(a@, b@, r),
{
    let mut i: usize = 0;
    while i < a.len() && i < b.len()
        invariant
            i <= a@.len(),
            i <= b@.len(),
            forall|j: int| 0 <= j < i ==> a@[j] == b@[j],
        decreases a@.len() - i,
    {
        if a[i] != b[i] {
            return Some(i);
        }
        i += 1;
    }
    None
}

/// Compares the packets and audio bytes a talker sent with those a listener
/// received.
pub fn analyze_transfer(sent: &[PacketMeta], received: &[PacketMeta], sent_pcm: &[u8], received_pcm: &[u8]) -> (r: TransferReport)
    ensures
        r.packets_sent == sent@.len(),
        r.packets_received == received@.len(),
        r.packets_lost == if sent@.len() > received@.len() {
            sent@.len() - received@.len()
        } else {
            0
        },
        first_difference(sent@, received@, r.first_metadata_mismatch),
        r.pcm_bytes_sent == sent_pcm@.len(),
        r.pcm_bytes_received == received_pcm@.len(),
        first_difference(sent_pcm@, received_pcm@, r.first_pcm_mismatch),
{
    TransferReport {
        packets_sent: sent.len(),
        packets_received: received.len(),
        packets_lost: sent.len().saturating_sub(received.len()),
        first_metadata_mismatch: first_packet_mismatch(sent, received),
        pcm_bytes_sent: sent_pcm.len(),
        pcm_bytes_received: received_pcm.len(),
        first_pcm_mismatch: first_byte_mismatch(sent_pcm, received_pcm),
    }
}

impl TransferReport {
    /// Whether everything arrived unchanged: as many packets with the same
    /// metadata, and the same audio bytes.
    pub fn passed(&self) -> (r: bool)
        ensures
            r == (self.packets_sent == self.packets_received && self.first_metadata_mismatch is None
                && self.pcm_bytes_sent == self.pcm_bytes_received && self.first_pcm_mismatch is None),
    {
        self.packets_sent == self.packets_received && self.first_metadata_mismatch.is_none()
            && self.pcm_bytes_sent == self.pcm_bytes_received && self.first_pcm_mismatch.is_none()
    }
}

/// Received items waiting for their presentation time, earliest first; items
/// of equal time leave in the order they came.
pub struct JitterBuffer<T> {
    entries: Vec<(PtpTime, T)>,
}

impl<T> View for JitterBuffer<T> {
    type V = Seq<(int, T)>;

    closed spec fn view(&self) -> Seq<(int, T)> {
        Seq::new(self.entries@.len(), |i: int| (self.entries@[i].0@, self.entries@[i].1))
    }
}

/// Whether entries are ordered by time.
pub open spec fn time_ordered<T>(s: Seq<(int, T)>) -> bool {
    forall|i: int, j: int| 0 <= i < j < s.len() ==> s[i].0 <= s[j].0
}

impl<T> JitterBuffer<T> {
    #[verifier::type_invariant]
    spec fn ordered(self) -> bool {
        time_ordered(self@)
    }

    /// An empty buffer.
    pub fn new() -> (r: Self)
        ensures
            r@ == Seq::<(int, T)>::empty(),
    {
        let r = JitterBuffer { entries: Vec::new() };
        assert(r@ =~= Seq::<(int, T)>::empty());
        r
    }

    /// The number of waiting items.
    pub fn len(&self) -> (r: usize)
        ensures
            r == self@.len(),
    {
        self.entries.len()
    }

    /// Whether no item is waiting.
    pub fn is_empty(&self) -> (r: bool)
        ensures
            r == (self@.len() == 0),
    {
        self.entries.len() == 0
    }

    /// Adds an item due at `time`, after every waiting item due no later.
    pub fn push(&mut self, time: PtpTime, item: T)
        ensures
            exists|k: int|
                0 <= k <= old(self)@.len() && final(self)@ == old(self)@.insert(k, (time@, item))
                    && (forall|i: int| 0 <= i < k ==> old(self)@[i].0 <= time@) && (forall|i: int|
                    k <= i < old(self)@.len() ==> old(self)@[i].0 > time@),
            time_ordered(final(self)@),
    {
        proof {
            use_type_invariant(&*self);
        }
        let t = time.as_nanos();
        let mut k: usize = self.entries.len();
        while k > 0 && self.entries[k - 1].0.as_nanos() > t
            invariant
                k <= self.entries@.len(),
                t == time@,
                forall|i: int| k <= i < self@.len() ==> self@[i].0 > time@,
                time_ordered(self@),
            decreases k,
        {
            k -= 1;
        }
        let ghost before = self@;
        assert(forall|i: int| 0 <= i < k ==> before[i].0 <= time@) by {
            if k > 0 {
                assert(before[k - 1].0 <= time@);
            }
        }
        let mut entries = Vec::new();
        std::mem::swap(&mut entries, &mut self.entries);
        entries.insert(k, (time, item));
        let ghost inserted = Seq::new(entries@.len(), |i: int| (entries@[i].0@, entries@[i].1));
        assert(inserted =~= before.insert(k as int, (time@, item)));
        assert(time_ordered(inserted));
        self.entries = entries;
        assert(self@ =~= inserted);
    }

    /// The time of the earliest waiting item.
    pub fn next_time(&self) -> (r: Option<PtpTime>)
        ensures
            self@.len() == 0 ==> r is None,
            self@.len() > 0 ==> (r matches Some(t) && t@ == self@[0].0),
    {
        if self.entries.len() == 0 {
            None
        } else {
            Some(self.entries[0].0)
        }
    }

    /// Takes the earliest waiting item, when it is due at `now` or earlier.
    pub fn pop_ready(&mut self, now: PtpTime) -> (r: Option<(PtpTime, T)>)
        ensures
            old(self)@.len() > 0 && old(self)@[0].0 <= now@ ==> (r matches Some(e) && e.0@ == old(
                self,
            )@[0].0 && e.1 == old(self)@[0].1 && final(self)@ == old(self)@.drop_first()),
            !(old(self)@.len() > 0 && old(self)@[0].0 <= now@) ==> r is None && final(self)@ == old(
                self,
            )@,
            r matches Some(e) ==> forall|i: int| 0 <= i < old(self)@.len() ==> e.0@ <= old(
                self,
            )@[i].0,
            time_ordered(final(self)@),
    {
        proof {
            use_type_invariant(&*self);
        }
        if self.entries.len() == 0 || self.entries[0].0.as_nanos() > now.as_nanos() {
            return None;
        }
        let ghost before = self@;
        let mut entries = Vec::new();
        std::mem::swap(&mut entries, &mut self.entries);
        let first = entries.remove(0);
        let ghost rest = Seq::new(entries@.len(), |i: int| (entries@[i].0@, entries@[i].1));
        assert(rest =~= before.drop_first());
        self.entries = entries;
        assert(self@ =~= rest);
        Some(first)
    }
}

} // verus!
