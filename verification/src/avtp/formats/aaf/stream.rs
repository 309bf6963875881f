use vstd::prelude::*;

use crate::avtp::avtpdu::{Avtpdu, AvtpduView};
use crate::avtp::formats::aaf::common::{
    Aaf, AafVariant, AafVariantView, AafView, InvalidAaf, aaf_of_header, header_of_aaf,
    lemma_aaf_header_roundtrip,
};
use crate::avtp::formats::aaf::pcm::{
    AafPcm, AafPcmView, InvalidPcmAaf, PcmFormat, SampleRate, pcm_error, pcm_valid,
};
use crate::avtp::headers::common::CommonHeader;
use crate::avtp::headers::stream::{GenericStreamData, StreamHeaderView};
use crate::avtp::stream::{StreamFilter, StreamListener, StreamTalker, filter_accepts};
use crate::avtp::stream_id::StreamID;
use crate::avtp::subtype::Subtype;
use crate::avtp::timestamp::{
    AvtpTimestamp, abs_int, avtp_wrap, expand_near_spec, lemma_expand_near_recovers,
};
use crate::io::bytes::copy_range;
use crate::net::mac_address::MacAddress;
use crate::ptp_phc::time::PtpTime;

verus! {

/// Errors of configuring an [`AafPcmTalker`].
#[derive(Debug, Clone, Copy, PartialEq, Eq)]
pub enum AafPcmTalkerConfigError {
    BitDepthZero,
    ChannelsPerFrameZero,
}

/// Errors of building an outgoing AAF PCM AVTP packet.
#[derive(Debug, Clone, Copy, PartialEq, Eq)]
pub enum AafPcmTalkerError {
    Pcm(InvalidPcmAaf),
}

/// Received PCM audio frame from an AVTP stream.
#[derive(Debug, Clone)]
pub struct ReceivedPcm {
    /// AVTP presentation timestamp (absolute gPTP time mod 2^32 nanoseconds).
    pub avtp_timestamp: AvtpTimestamp,
    /// AVTP stream sequence number.
    pub seq_num: u8,
    /// Big-endian encoded PCM audio samples.
    pub payload_be: Vec<u8>,
    /// Sample rate of the PCM stream.
    pub sample_rate: SampleRate,
    /// Number of audio channels in each sample frame.
    pub channels: u16,
    /// Number of valid bits per sample.
    pub bit_depth: u8,
    /// Sample word container format used in the AVTP payload.
    pub format: PcmFormat,
    /// Number of packets lost before this one (sequence number gap).
    pub packets_lost: u32,
}

/// Model of [`ReceivedPcm`].
pub struct ReceivedPcmView {
    pub avtp_timestamp: u32,
    pub seq_num: u8,
    pub payload_be: Seq<u8>,
    pub sample_rate: SampleRate,
    pub channels: u16,
    pub bit_depth: u8,
    pub format: PcmFormat,
    pub packets_lost: u32,
}

impl View for ReceivedPcm {
    type V = ReceivedPcmView;

    open spec fn view(&self) -> ReceivedPcmView {
        ReceivedPcmView {
            avtp_timestamp: self.avtp_timestamp@,
            seq_num: self.seq_num,
            payload_be: self.payload_be@,
            sample_rate: self.sample_rate,
            channels: self.channels,
            bit_depth: self.bit_depth,
            format: self.format,
            packets_lost: self.packets_lost,
        }
    }
}

/// Model of [`AafPcmTalker`].
pub struct AafPcmTalkerView {
    pub stream_id: StreamID,
    pub format: PcmFormat,
    pub sample_rate: SampleRate,
    pub channels: u16,
    pub bit_depth: u8,
    pub sequence_num: u8,
    pub playback_delay_ns: u32,
}

/// Encodes PCM audio into AAF AVTP packets: sequence numbering, timestamping
/// from PTP time plus a presentation delay, and packet construction.
pub struct AafPcmTalker {
    stream_id: StreamID,
    format: PcmFormat,
    sample_rate: SampleRate,
    channels: u16,
    bit_depth: u8,
    sequence_num: u8,
    playback_delay_ns: u32,
}

impl View for AafPcmTalker {
    type V = AafPcmTalkerView;

    closed spec fn view(&self) -> AafPcmTalkerView {
        AafPcmTalkerView {
            stream_id: self.stream_id,
            format: self.format,
            sample_rate: self.sample_rate,
            channels: self.channels,
            bit_depth: self.bit_depth,
            sequence_num: self.sequence_num,
            playback_delay_ns: self.playback_delay_ns,
        }
    }
}

/// Whether a talker model holds a usable configuration.
pub open spec fn talker_valid(t: AafPcmTalkerView) -> bool {
    0 < t.channels < 1024 && t.bit_depth > 0
}

/// The stream data of the packet a talker sends at a given AVTP timestamp, with
/// a payload of `payload_len` bytes.
pub open spec fn talker_stream_data(
    t: AafPcmTalkerView,
    avtp_timestamp: u32,
    payload_len: int,
) -> GenericStreamData {
    GenericStreamData {
        common: CommonHeader { subtype: Subtype::AAF, header_specific_bit: true, version: 0 },
        media_clock_restart: false,
        avtp_timestamp_valid: true,
        sequence_num: t.sequence_num,
        timestamp_uncertain: false,
        stream_id: t.stream_id,
        avtp_timestamp,
        stream_data_length: payload_len as u16,
    }
}

/// The AVTP timestamp a talker puts on a packet sent at PTP time `time_ns`.
pub open spec fn talker_timestamp(t: AafPcmTalkerView, time_ns: int) -> u32 {
    ((time_ns % avtp_wrap() + t.playback_delay_ns) % avtp_wrap()) as u32
}

/// The AAF payload of the packet a talker sends.
pub open spec fn talker_aaf(t: AafPcmTalkerView, time_ns: int, payload: Seq<u8>) -> AafView {
    AafView {
        stream_data: talker_stream_data(t, talker_timestamp(t, time_ns), payload.len() as int),
        format_data: AafVariantView::Pcm(
            AafPcmView {
                nominal_sample_rate: t.sample_rate,
                channels_per_frame: t.channels,
                format: t.format,
                bit_depth: t.bit_depth,
                payload,
            },
        ),
        sparse_timestamp: false,
        event_flags: 0,
    }
}

impl AafPcmTalker {
    #[verifier::type_invariant]
    spec fn valid(self) -> bool {
        talker_valid(self@)
    }

    /// Creates a talker; the bit depth and the channel count must be non-zero.
    ///
    /// The presentation delay in milliseconds must be representable in nanoseconds
    /// as a `u32`.
    pub fn new(
        stream_id: StreamID,
        format: PcmFormat,
        sample_rate: SampleRate,
        channels: u16,
        bit_depth: u8,
        playback_delay_ms: u32,
    ) -> (r: Result<Self, AafPcmTalkerConfigError>)
        requires
            channels < 1024,
            playback_delay_ms * 1_000_000 <= u32::MAX,
        ensures
            bit_depth == 0 ==> r == Err::<Self, AafPcmTalkerConfigError>(
                AafPcmTalkerConfigError::BitDepthZero,
            ),
            bit_depth != 0 && channels == 0 ==> r == Err::<Self, AafPcmTalkerConfigError>(
                AafPcmTalkerConfigError::ChannelsPerFrameZero,
            ),
            bit_depth != 0 && channels != 0 ==> (r matches Ok(t) && t@ == (AafPcmTalkerView {
                stream_id,
                format,
                sample_rate,
                channels,
                bit_depth,
                sequence_num: 0,
                playback_delay_ns: (playback_delay_ms * 1_000_000) as u32,
            })),
    {
        if bit_depth == 0 {
            return Err(AafPcmTalkerConfigError::BitDepthZero);
        }
        if channels == 0 {
            return Err(AafPcmTalkerConfigError::ChannelsPerFrameZero);
        }
        Ok(
            Self {
                stream_id,
                format,
                sample_rate,
                channels,
                bit_depth,
                sequence_num: 0,
                playback_delay_ns: playback_delay_ms * 1_000_000,
            },
        )
    }

    /// Builds the next packet from PCM samples (big-endian words) read at PTP time
    /// `ptp_time`, and advances the sequence number.
    ///
    /// Fails, leaving the talker unchanged, when the samples do not form a valid PCM
    /// payload for the configured format.
    pub fn build_packet(&mut self, ptp_time: PtpTime, payload: Vec<u8>) -> (r: Result<
        Avtpdu,
        AafPcmTalkerError,
    >)
        ensures
            match pcm_error(
                old(self)@.format,
                old(self)@.channels,
                old(self)@.bit_depth,
                payload@.len() as int,
            ) {
                Some(e) => r == Err::<Avtpdu, AafPcmTalkerError>(AafPcmTalkerError::Pcm(e))
                    && final(self)@ == old(self)@,
                None => (r matches Ok(p) && p@ == AvtpduView::Stream(
                    header_of_aaf(talker_aaf(old(self)@, ptp_time@, payload@)),
                )) && final(self)@ == (AafPcmTalkerView {
                    sequence_num: ((old(self)@.sequence_num + 1) % 256) as u8,
                    ..old(self)@
                }),
            },
            final(self)@ == talker_step(old(self)@, payload@.len() as int),
    {
        proof {
            use_type_invariant(&*self);
        }
        let avtp_timestamp = AvtpTimestamp::from_ptp_time(ptp_time).wrapping_add(
            self.playback_delay_ns,
        );
        let payload_len = payload.len();
        let pcm = match AafPcm::new(
            self.sample_rate,
            self.channels,
            self.format,
            self.bit_depth,
            payload,
        ) {
            Ok(p) => p,
            Err(e) => return Err(AafPcmTalkerError::Pcm(e)),
        };
        pcm.lemma_valid();
        let common = CommonHeader { subtype: Subtype::AAF, header_specific_bit: true, version: 0 };
        let generic = GenericStreamData {
            common,
            media_clock_restart: false,
            avtp_timestamp_valid: true,
            sequence_num: self.sequence_num,
            timestamp_uncertain: false,
            stream_id: self.stream_id,
            avtp_timestamp: avtp_timestamp.as_u32(),
            stream_data_length: payload_len as u16,
        };
        let aaf = match Aaf::new(generic, AafVariant::Pcm(pcm), false, 0) {
            Ok(a) => a,
            Err(_) => {
                proof {
                    assert(false);
                }
                return Err(AafPcmTalkerError::Pcm(InvalidPcmAaf::BitDepthZero));
            },
        };
        let stream_header = aaf.into_stream_header();
        self.sequence_num = self.sequence_num.wrapping_add(1);
        Ok(Avtpdu::Stream(stream_header))
    }
}

/// Model of [`AafPcmListener`].
pub struct AafPcmListenerView {
    pub filter: StreamFilter,
    pub expected_seq: Option<u8>,
}

/// Decodes PCM audio from AAF AVTP packets: filters by stream ID and reports
/// sequence number gaps as lost packets.
pub struct AafPcmListener {
    filter: StreamFilter,
    expected_seq: Option<u8>,
}

impl View for AafPcmListener {
    type V = AafPcmListenerView;

    closed spec fn view(&self) -> AafPcmListenerView {
        AafPcmListenerView { filter: self.filter, expected_seq: self.expected_seq }
    }
}

/// The number of packets lost before a packet with sequence number `seq`, and the
/// next expected sequence number.
pub open spec fn sequence_step(expected: Option<u8>, seq: u8) -> (u32, Option<u8>) {
    let lost = match expected {
        None => 0,
        Some(e) => ((seq - e) % 256) as u32,
    };
    (lost, Some(((seq + 1) % 256) as u8))
}

/// What a listener outputs for an accepted PCM payload.
pub open spec fn received_of(a: AafView, p: AafPcmView, lost: u32) -> ReceivedPcmView {
    ReceivedPcmView {
        avtp_timestamp: a.stream_data.avtp_timestamp,
        seq_num: a.stream_data.sequence_num,
        payload_be: p.payload,
        sample_rate: p.nominal_sample_rate,
        channels: p.channels_per_frame,
        bit_depth: p.bit_depth,
        format: p.format,
        packets_lost: lost,
    }
}

/// A listener's next state and output for a packet.
pub open spec fn listener_step(l: AafPcmListenerView, pdu: AvtpduView) -> (
    AafPcmListenerView,
    Result<Option<ReceivedPcmView>, InvalidAaf>,
) {
    match pdu {
        AvtpduView::Stream(h) => match aaf_of_header(h) {
            Err(e) => (l, Err(e)),
            Ok(a) => if !filter_accepts(l.filter, a.stream_data.stream_id) {
                (l, Ok(None))
            } else {
                match a.format_data {
                    AafVariantView::Aes3(_) => (l, Ok(None)),
                    AafVariantView::Pcm(p) => {
                        let (lost, next) = sequence_step(l.expected_seq, a.stream_data.sequence_num);
                        (
                            AafPcmListenerView { expected_seq: next, ..l },
                            Ok(Some(received_of(a, p, lost))),
                        )
                    },
                }
            },
        },
        _ => (l, Ok(None)),
    }
}

impl AafPcmListener {
    /// Creates a listener that accepts the given stream, or every stream for `None`.
    pub fn new(stream_id: Option<StreamID>) -> (r: Self)
        ensures
            r@.expected_seq is None,
            r@.filter == (match stream_id {
                Some(id) => StreamFilter::Exact(id),
                None => StreamFilter::Any,
            }),
    {
        let filter = match stream_id {
            Some(id) => StreamFilter::Exact(id),
            None => StreamFilter::Any,
        };
        Self { filter, expected_seq: None }
    }

    /// Creates a listener that accepts packets from a MAC address, whatever their
    /// stream UID.
    pub fn new_with_mac_filter(mac: MacAddress) -> (r: Self)
        ensures
            r@ == (AafPcmListenerView { filter: StreamFilter::MacOnly(mac), expected_seq: None }),
    {
        Self { filter: StreamFilter::MacOnly(mac), expected_seq: None }
    }

    /// Processes an incoming packet (see [`listener_step`]).
    pub fn process(&mut self, pdu: &Avtpdu) -> (r: Result<Option<ReceivedPcm>, InvalidAaf>)
        ensures
            final(self)@ == listener_step(old(self)@, pdu@).0,
            match (r, listener_step(old(self)@, pdu@).1) {
                (Ok(None), Ok(None)) => true,
                (Ok(Some(x)), Ok(Some(y))) => x@ == y,
                (Err(e), Err(k)) => e == k,
                _ => false,
            },
    {
        let stream_header = match pdu {
            Avtpdu::Stream(h) => h,
            _ => return Ok(None),
        };
        let aaf = Aaf::try_from_stream_header(stream_header.clone())?;
        let stream_id = aaf.stream_data().stream_id;
        if !self.filter.matches(stream_id) {
            return Ok(None);
        }
        let aaf_pcm = match aaf.format_data() {
            AafVariant::Pcm(p) => p,
            AafVariant::Aes3(_) => return Ok(None),
        };
        let seq_num = aaf.stream_data().sequence_num;
        let packets_lost = match self.expected_seq {
            None => {
                self.expected_seq = Some(seq_num.wrapping_add(1));
                0
            },
            Some(expected) => {
                let gap = seq_num.wrapping_sub(expected);
                self.expected_seq = Some(seq_num.wrapping_add(1));
                gap as u32
            },
        };
        Ok(
            Some(
                ReceivedPcm {
                    avtp_timestamp: AvtpTimestamp::from_u32(aaf.stream_data().avtp_timestamp),
                    seq_num,
                    payload_be: aaf_pcm.payload(),
                    sample_rate: aaf_pcm.nominal_sample_rate(),
                    channels: aaf_pcm.channels_per_frame(),
                    bit_depth: aaf_pcm.bit_depth(),
                    format: aaf_pcm.format(),
                    packets_lost,
                },
            ),
        )
    }
}

impl StreamTalker for AafPcmTalker {
    type Error = AafPcmTalkerError;

    fn build_packet(&mut self, ptp_time: PtpTime, payload: Vec<u8>) -> (r: Result<Avtpdu, Self::Error>)
        ensures
            match pcm_error(
                old(self)@.format,
                old(self)@.channels,
                old(self)@.bit_depth,
                payload@.len() as int,
            ) {
                Some(e) => r == Err::<Avtpdu, AafPcmTalkerError>(AafPcmTalkerError::Pcm(e))
                    && final(self)@ == old(self)@,
                None => (r matches Ok(p) && p@ == AvtpduView::Stream(
                    header_of_aaf(talker_aaf(old(self)@, ptp_time@, payload@)),
                )) && final(self)@ == (AafPcmTalkerView {
                    sequence_num: ((old(self)@.sequence_num + 1) % 256) as u8,
                    ..old(self)@
                }),
            },
            final(self)@ == talker_step(old(self)@, payload@.len() as int),
    {
        AafPcmTalker::build_packet(self, ptp_time, payload)
    }
}

impl StreamListener for AafPcmListener {
    type Output = ReceivedPcm;

    type Error = InvalidAaf;

    fn process(&mut self, pdu: &Avtpdu) -> (r: Result<Option<Self::Output>, Self::Error>)
        ensures
            final(self)@ == listener_step(old(self)@, pdu@).0,
            match (r, listener_step(old(self)@, pdu@).1) {
                (Ok(None), Ok(None)) => true,
                (Ok(Some(x)), Ok(Some(y))) => x@ == y,
                (Err(e), Err(k)) => e == k,
                _ => false,
            },
    {
        AafPcmListener::process(self, pdu)
    }
}

/// A packet built by a talker can be encoded, and is accepted by a listener
/// that accepts the talker's stream, which hands out the samples, the sequence number and the timestamp the
/// talker put in, and counts as lost exactly the packets between the sequence
/// number it expected and the one received.
pub proof fn lemma_talker_listener(
    t: AafPcmTalkerView,
    l: AafPcmListenerView,
    time_ns: int,
    payload: Seq<u8>,
)
    requires
        talker_valid(t),
        pcm_error(t.format, t.channels, t.bit_depth, payload.len() as int) is None,
        filter_accepts(l.filter, t.stream_id),
    ensures
        ({
            let pdu = AvtpduView::Stream(header_of_aaf(talker_aaf(t, time_ns, payload)));
            let (l2, out) = listener_step(l, pdu);
            &&& out matches Ok(Some(rx))
            &&& rx.payload_be == payload
            &&& rx.seq_num == t.sequence_num
            &&& rx.avtp_timestamp == talker_timestamp(t, time_ns)
            &&& rx.sample_rate == t.sample_rate
            &&& rx.channels == t.channels
            &&& rx.bit_depth == t.bit_depth
            &&& rx.format == t.format
            &&& rx.packets_lost == sequence_step(l.expected_seq, t.sequence_num).0
            &&& l2.expected_seq == Some(((t.sequence_num + 1) % 256) as u8)
            &&& crate::avtp::avtpdu::avtpdu_encodable(pdu)
            &&& crate::avtp::avtpdu::avtpdu_fits(pdu)
        }),
{
    let a = talker_aaf(t, time_ns, payload);
    assert(pcm_valid(AafPcmView {
        nominal_sample_rate: t.sample_rate,
        channels_per_frame: t.channels,
        format: t.format,
        bit_depth: t.bit_depth,
        payload,
    }));
    lemma_aaf_header_roundtrip(a);
}

/// The AVTP timestamp a talker puts on a packet, expanded near an instant within
/// half a wrap window (about 2.1 s) of the presentation time, gives back the
/// presentation time: the PTP time the packet was built at plus the talker's
/// presentation delay.
pub proof fn lemma_presentation_time_recovered(
    t: AafPcmTalkerView,
    time_ns: int,
    reference_ns: int,
)
    requires
        abs_int(time_ns + t.playback_delay_ns - reference_ns) < avtp_wrap() / 2,
    ensures
        expand_near_spec(talker_timestamp(t, time_ns), reference_ns) == time_ns + t.playback_delay_ns,
{
    let w = avtp_wrap();
    let d = t.playback_delay_ns as int;
    vstd::arithmetic::div_mod::lemma_add_mod_noop(time_ns, d, w);
    assert(d % w == d);
    assert(talker_timestamp(t, time_ns) == ((time_ns + d) % w) as u32);
    lemma_expand_near_recovers(time_ns + d, reference_ns);
}

/// Whether a talker builds a packet from a payload of `len` bytes (its PCM
/// layout is valid for the talker's format).
pub open spec fn talker_accepts(t: AafPcmTalkerView, len: int) -> bool {
    pcm_error(t.format, t.channels, t.bit_depth, len) is None
}

/// A talker after one [`AafPcmTalker::build_packet`] call with a payload of
/// `len` bytes: the sequence number advances (mod 256) when a packet is built,
/// and nothing changes when the call fails.
pub open spec fn talker_step(t: AafPcmTalkerView, len: int) -> AafPcmTalkerView {
    if talker_accepts(t, len) {
        AafPcmTalkerView { sequence_num: ((t.sequence_num + 1) % 256) as u8, ..t }
    } else {
        t
    }
}

/// A talker after a series of calls with payloads of the given lengths.
pub open spec fn talker_run(t: AafPcmTalkerView, lens: Seq<int>) -> AafPcmTalkerView
    decreases lens.len(),
{
    if lens.len() == 0 {
        t
    } else {
        talker_step(talker_run(t, lens.drop_last()), lens.last())
    }
}

/// How many of the payload lengths a talker builds packets from.
pub open spec fn accepted_count(t: AafPcmTalkerView, lens: Seq<int>) -> nat
    decreases lens.len(),
{
    if lens.len() == 0 {
        0
    } else {
        accepted_count(t, lens.drop_last()) + if talker_accepts(t, lens.last()) {
            1nat
        } else {
            0nat
        }
    }
}

/// Over any series of calls, a talker keeps its configuration and its sequence
/// number has advanced once (mod 256) per packet built: the packet built by a
/// call carries the number of packets built before it, plus the starting
/// number, mod 256 (for a new talker, the n-th packet carries `n mod 256`),
/// and failed calls do not count.
pub proof fn lemma_talker_sequence(t: AafPcmTalkerView, lens: Seq<int>)
    ensures
        talker_run(t, lens) == (AafPcmTalkerView {
            sequence_num: ((t.sequence_num + accepted_count(t, lens)) % 256) as u8,
            ..t
        }),
    decreases lens.len(),
{
    if lens.len() > 0 {
        lemma_talker_sequence(t, lens.drop_last());
        let c = accepted_count(t, lens.drop_last());
        vstd::arithmetic::div_mod::lemma_add_mod_noop(t.sequence_num + c, 1, 256);
    }
}

/// The samples a listener outputs for a data unit count as lost the gap
/// between their sequence number and the one it expected (mod 256); a listener
/// that expects none yet (a new one, joining a running stream) counts none,
/// whatever the sequence number. Afterwards it expects the number after theirs.
pub proof fn lemma_listener_lost_count(l: AafPcmListenerView, pdu: AvtpduView)
    ensures
        listener_step(l, pdu).1 matches Ok(Some(r)) ==> {
            &&& l.expected_seq is None ==> r.packets_lost == 0
            &&& l.expected_seq matches Some(e) ==> r.packets_lost == ((r.seq_num - e) % 256) as u32
            &&& listener_step(l, pdu).0.expected_seq == Some(((r.seq_num + 1) % 256) as u8)
        },
{
}

/// Whether a listener outputs samples for a data unit.
pub open spec fn listener_outputs(l: AafPcmListenerView, pdu: AvtpduView) -> bool {
    listener_step(l, pdu).1 matches Ok(Some(_))
}

/// A listener after a series of data units.
pub open spec fn listener_run(l: AafPcmListenerView, pdus: Seq<AvtpduView>) -> AafPcmListenerView
    decreases pdus.len(),
{
    if pdus.len() == 0 {
        l
    } else {
        listener_step(listener_run(l, pdus.drop_last()), pdus.last()).0
    }
}

/// The sequence numbers of the data units, among a series, that a listener
/// outputs samples for, in order.
pub open spec fn output_seqs(l: AafPcmListenerView, pdus: Seq<AvtpduView>) -> Seq<u8>
    decreases pdus.len(),
{
    if pdus.len() == 0 {
        Seq::empty()
    } else {
        let before = listener_run(l, pdus.drop_last());
        let earlier = output_seqs(l, pdus.drop_last());
        match listener_step(before, pdus.last()).1 {
            Ok(Some(r)) => earlier.push(r.seq_num),
            _ => earlier,
        }
    }
}

/// One data unit: the listener keeps its filter, and its expected sequence
/// number changes only when it outputs samples, to the number after theirs.
proof fn lemma_listener_step_state(l: AafPcmListenerView, pdu: AvtpduView)
    ensures
        listener_step(l, pdu).0.filter == l.filter,
        listener_step(l, pdu).1 matches Ok(Some(r)) ==> listener_step(l, pdu).0.expected_seq == Some(
            ((r.seq_num + 1) % 256) as u8,
        ),
        !(listener_step(l, pdu).1 matches Ok(Some(_))) ==> listener_step(l, pdu).0 == l,
{
}

/// The state part of [`lemma_listener_sequence`].
proof fn lemma_listener_state(l: AafPcmListenerView, pdus: Seq<AvtpduView>)
    ensures
        listener_run(l, pdus).filter == l.filter,
        listener_run(l, pdus).expected_seq == (if output_seqs(l, pdus).len() == 0 {
            l.expected_seq
        } else {
            Some(((output_seqs(l, pdus).last() + 1) % 256) as u8)
        }),
    decreases pdus.len(),
{
    if pdus.len() > 0 {
        let prev = pdus.drop_last();
        lemma_listener_state(l, prev);
        lemma_listener_step_state(listener_run(l, prev), pdus.last());
    }
}

/// Over any series of data units, a listener keeps its filter, and expects next
/// the number after the last sequence number it output samples for (what it
/// started with if it output none); units it filters out or rejects change
/// nothing. So the samples it outputs next count as lost the gap between their
/// sequence number and the one after the last output (mod 256); for the first
/// output of a new listener, none.
pub proof fn lemma_listener_sequence(l: AafPcmListenerView, pdus: Seq<AvtpduView>, next: AvtpduView)
    ensures
        listener_run(l, pdus).filter == l.filter,
        listener_run(l, pdus).expected_seq == (if output_seqs(l, pdus).len() == 0 {
            l.expected_seq
        } else {
            Some(((output_seqs(l, pdus).last() + 1) % 256) as u8)
        }),
        listener_step(listener_run(l, pdus), next).1 matches Ok(Some(r)) ==> r.packets_lost == (
        if output_seqs(l, pdus).len() == 0 {
            match l.expected_seq {
                None => 0u32,
                Some(e) => ((r.seq_num - e) % 256) as u32,
            }
        } else {
            ((r.seq_num - output_seqs(l, pdus).last() - 1) % 256) as u32
        }),
{
    lemma_listener_state(l, pdus);
    let before = listener_run(l, pdus);
    let outs = output_seqs(l, pdus);
    if let Ok(Some(r)) = listener_step(before, next).1 {
        if outs.len() > 0 {
            let last = outs.last() as int;
            let e = (last + 1) % 256;
            let sq = r.seq_num as int;
            assert((sq - e) % 256 == (sq - last - 1) % 256) by {
                if last == 255 {
                    assert(e == 0);
                    vstd::arithmetic::div_mod::lemma_fundamental_div_mod_converse(sq - 256, 256, -1, sq);
                } else {
                    assert(e == last + 1);
                }
            }
        }
    }
}

} // verus!
