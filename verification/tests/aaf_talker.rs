use rs_1722::avtp::formats::aaf::stream::{AafPcmTalkerConfigError, AafPcmTalkerError};
use rs_1722::avtp::formats::aaf::{
    Aaf, AafFormat, AafPcm, AafPcmListener, AafPcmTalker, AafVariant, PcmFormat, SampleRate,
};
use rs_1722::avtp::headers::{CommonHeader, GenericStreamData};
use rs_1722::avtp::Subtype;
use rs_1722::avtp::formats::aaf::pcm::InvalidPcmAaf;
use rs_1722::avtp::{Avtpdu, StreamID};
use rs_1722::net::MacAddress;
use rs_1722::ptp_phc::PtpTime;

fn test_stream_id() -> StreamID {
    StreamID { mac_address: MacAddress([0, 1, 2, 3, 4, 5]), unique_id: 1 }
}

#[test]
fn talker_new_reports_zero_bit_depth_structurally() {
    let result = AafPcmTalker::new(test_stream_id(), PcmFormat::Int16Bit, SampleRate::KHz48, 2, 0, 50);

    assert!(matches!(result, Err(AafPcmTalkerConfigError::BitDepthZero)));
}

#[test]
fn talker_new_reports_zero_channels_structurally() {
    let result = AafPcmTalker::new(test_stream_id(), PcmFormat::Int16Bit, SampleRate::KHz48, 0, 16, 50);

    assert!(matches!(result, Err(AafPcmTalkerConfigError::ChannelsPerFrameZero)));
}

#[test]
fn talker_packets_reach_the_listener() {
    let mut talker =
        AafPcmTalker::new(test_stream_id(), PcmFormat::Int16Bit, SampleRate::KHz48, 2, 16, 2).unwrap();
    let mut listener = AafPcmListener::new(Some(test_stream_id()));
    let now = PtpTime::new(1, 0);

    let packet = talker.build_packet(now, vec![1, 2, 3, 4, 5, 6, 7, 8]).unwrap();
    let mut bytes = Vec::new();
    packet.write(&mut bytes).unwrap();
    let parsed = Avtpdu::read(&bytes).unwrap();

    let received = listener.process(&parsed).unwrap().unwrap();
    assert_eq!(received.seq_num, 0);
    assert_eq!(received.payload_be, vec![1, 2, 3, 4, 5, 6, 7, 8]);
    assert_eq!(received.channels, 2);
    assert_eq!(received.bit_depth, 16);
    assert_eq!(received.packets_lost, 0);
    // one second plus the two millisecond playback delay
    assert_eq!(received.avtp_timestamp.as_u32(), (1_002_000_000_u64 % (1 << 32)) as u32);

    let second = talker.build_packet(now, vec![0; 4]).unwrap();
    let received = listener.process(&second).unwrap().unwrap();
    assert_eq!(received.seq_num, 1);
}

#[test]
fn listener_counts_lost_packets() {
    let mut talker =
        AafPcmTalker::new(test_stream_id(), PcmFormat::Int16Bit, SampleRate::KHz48, 1, 16, 0).unwrap();
    let mut listener = AafPcmListener::new(None);
    let now = PtpTime::new(0, 0);
    let first = talker.build_packet(now, vec![0; 2]).unwrap();
    let _skipped = talker.build_packet(now, vec![0; 2]).unwrap();
    let third = talker.build_packet(now, vec![0; 2]).unwrap();
    assert_eq!(listener.process(&first).unwrap().unwrap().packets_lost, 0);
    assert_eq!(listener.process(&third).unwrap().unwrap().packets_lost, 1);
}

#[test]
fn listener_ignores_other_streams() {
    let other = StreamID { mac_address: MacAddress([9, 9, 9, 9, 9, 9]), unique_id: 1 };
    let mut talker = AafPcmTalker::new(other, PcmFormat::Int16Bit, SampleRate::KHz48, 1, 16, 0).unwrap();
    let mut listener = AafPcmListener::new_with_mac_filter(MacAddress([0, 1, 2, 3, 4, 5]));
    let packet = talker.build_packet(PtpTime::new(0, 0), vec![0; 2]).unwrap();
    assert!(listener.process(&packet).unwrap().is_none());
}

#[test]
fn payload_not_made_of_whole_frames_is_refused() {
    let mut talker =
        AafPcmTalker::new(test_stream_id(), PcmFormat::Int16Bit, SampleRate::KHz48, 2, 16, 0).unwrap();
    match talker.build_packet(PtpTime::new(0, 0), vec![0; 3]) {
        Err(AafPcmTalkerError::Pcm(InvalidPcmAaf::PayloadSizeInvalid { payload_size, frame_size })) => {
            assert_eq!(payload_size, 3);
            assert_eq!(frame_size, 4);
        }
        other => panic!("unexpected: {other:?}"),
    }
    // a refused payload does not use up a sequence number
    let mut listener = AafPcmListener::new(None);
    let packet = talker.build_packet(PtpTime::new(0, 0), vec![0; 4]).unwrap();
    assert_eq!(listener.process(&packet).unwrap().unwrap().seq_num, 0);
}

#[test]
fn presentation_time_is_recovered_from_the_wrapped_timestamp() {
    let mut talker =
        AafPcmTalker::new(test_stream_id(), PcmFormat::Int16Bit, SampleRate::KHz48, 2, 16, 50).unwrap();
    let mut listener = AafPcmListener::new(Some(test_stream_id()));
    // far beyond one wrap window (2^32 ns), so the timestamp has wrapped many times
    let sent_at = PtpTime::new(1_000, 999_000_000);
    let packet = talker.build_packet(sent_at, vec![0; 4]).unwrap();
    let received = listener.process(&packet).unwrap().unwrap();

    let received_at = PtpTime::new(1_001, 10_000_000);
    let presentation = received.avtp_timestamp.expand_near(received_at);
    assert_eq!(presentation, PtpTime::new(1_001, 49_000_000));
}

#[test]
fn format_and_rate_codes_round_trip() {
    let formats = [
        AafFormat::User,
        AafFormat::Float32Bit,
        AafFormat::Int32Bit,
        AafFormat::Int24Bit,
        AafFormat::Int16Bit,
        AafFormat::AES3_32Bit,
    ];
    for f in formats {
        assert_eq!(AafFormat::from_u8(f.as_u8()), Ok(f));
    }
    assert_eq!(AafFormat::from_u8(6), Err(6));
    for p in [PcmFormat::User, PcmFormat::Float32Bit, PcmFormat::Int32Bit, PcmFormat::Int24Bit, PcmFormat::Int16Bit] {
        assert_eq!(AafFormat::from_pcm(p).to_pcm(), Some(p));
    }
    assert_eq!(AafFormat::AES3_32Bit.to_pcm(), None);

    for code in 0u8..16 {
        match SampleRate::from_code(code) {
            Ok(rate) => {
                assert_eq!(rate.code(), code);
                if let Some(hz) = rate.rate() {
                    assert_eq!(SampleRate::from_hz(hz as u32), Some(rate));
                }
            }
            Err(c) => assert!(code > 10 && c == code),
        }
    }
    assert_eq!(SampleRate::KHz48.code(), 5);
    assert_eq!(SampleRate::from_hz(44_100), Some(SampleRate::KHz44_1));
    assert_eq!(SampleRate::from_hz(44_000), None);
}

fn aaf_stream_data(stream_data_length: u16) -> GenericStreamData {
    GenericStreamData {
        common: CommonHeader { subtype: Subtype::AAF, header_specific_bit: true, version: 0 },
        media_clock_restart: false,
        avtp_timestamp_valid: true,
        sequence_num: 7,
        timestamp_uncertain: false,
        stream_id: test_stream_id(),
        avtp_timestamp: 1234,
        stream_data_length,
    }
}

#[test]
fn aaf_through_a_stream_header_comes_back_unchanged() {
    for length in [0u16, 8, 100] {
        let pcm = AafPcm::new(SampleRate::KHz48, 2, PcmFormat::Int16Bit, 16, vec![1; 8]).unwrap();
        let aaf = Aaf::new(aaf_stream_data(length), AafVariant::Pcm(pcm), false, 0).unwrap();
        let pcm_again = AafPcm::new(SampleRate::KHz48, 2, PcmFormat::Int16Bit, 16, vec![1; 8]).unwrap();
        let expected = Aaf::new(aaf_stream_data(length), AafVariant::Pcm(pcm_again), false, 0).unwrap();
        let header = aaf.into_stream_header();
        assert_eq!(header.generic.stream_data_length, length);
        assert_eq!(Aaf::try_from_stream_header(header).unwrap(), expected);
    }
}

#[test]
fn talker_packets_carry_their_payload_length_and_number_only_successes() {
    let mut talker =
        AafPcmTalker::new(test_stream_id(), PcmFormat::Int16Bit, SampleRate::KHz48, 2, 16, 0).unwrap();
    let now = PtpTime::new(0, 0);
    let first = talker.build_packet(now, vec![0; 8]).unwrap();
    assert!(first.is_encodable());
    assert!(talker.build_packet(now, vec![0; 3]).is_err());
    let second = talker.build_packet(now, vec![0; 4]).unwrap();
    match (&first, &second) {
        (Avtpdu::Stream(a), Avtpdu::Stream(b)) => {
            assert_eq!(a.generic.stream_data_length, 8);
            assert_eq!(a.generic.sequence_num, 0);
            assert_eq!(b.generic.sequence_num, 1);
        }
        _ => panic!("talkers build stream data units"),
    }
}
