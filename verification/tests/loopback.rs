use rs_1722::bin_utils::loopback::{
    analyze_transfer, audio_duration_ns, default_samples_per_packet, packet_duration_ns,
    packet_payload_size, packet_send_offset_ns, pcm_format_for_wav, swap_byte_order, JitterBuffer, PacketMeta,
};
use rs_1722::audio::wav::{WavAudioFormat, WavHeader};
use rs_1722::avtp::formats::aaf::PcmFormat;
use rs_1722::ptp_phc::PtpTime;

#[test]
fn byte_order_is_reversed_within_whole_words() {
    let mut buf = vec![1, 2, 3, 4, 5, 6, 7];
    swap_byte_order(&mut buf, 3);
    assert_eq!(buf, vec![3, 2, 1, 6, 5, 4, 7]);
    let mut single = vec![9, 8];
    swap_byte_order(&mut single, 1);
    assert_eq!(single, vec![9, 8]);
    let mut pcm16 = vec![0x12, 0x34, 0x56, 0x78];
    swap_byte_order(&mut pcm16, 2);
    swap_byte_order(&mut pcm16, 2);
    assert_eq!(pcm16, vec![0x12, 0x34, 0x56, 0x78]);
}

#[test]
fn packet_pacing_arithmetic() {
    assert_eq!(default_samples_per_packet(48_000), 48);
    assert_eq!(default_samples_per_packet(500), 1);
    assert_eq!(packet_duration_ns(48, 48_000), 1_000_000);
    assert_eq!(packet_duration_ns(1, 44_100), 22_675);
    assert_eq!(packet_payload_size(48, 4), Some(192));
    assert_eq!(packet_payload_size(u32::MAX, usize::MAX), None);
    assert_eq!(audio_duration_ns(192_000, 192_000), Some(1_000_000_000));
    assert_eq!(audio_duration_ns(usize::MAX, 1), None);
}

#[test]
fn jitter_buffer_releases_items_in_time_order() {
    let mut buffer = JitterBuffer::new();
    buffer.push(PtpTime::new(3, 0), "c");
    buffer.push(PtpTime::new(1, 0), "a");
    buffer.push(PtpTime::new(2, 0), "b1");
    buffer.push(PtpTime::new(2, 0), "b2");
    assert_eq!(buffer.len(), 4);
    assert_eq!(buffer.next_time(), Some(PtpTime::new(1, 0)));
    assert_eq!(buffer.pop_ready(PtpTime::new(0, 999_999_999)), None);
    assert_eq!(buffer.pop_ready(PtpTime::new(2, 0)).map(|e| e.1), Some("a"));
    assert_eq!(buffer.pop_ready(PtpTime::new(2, 0)).map(|e| e.1), Some("b1"));
    assert_eq!(buffer.pop_ready(PtpTime::new(2, 0)).map(|e| e.1), Some("b2"));
    assert_eq!(buffer.pop_ready(PtpTime::new(2, 0)).map(|e| e.1), None);
    assert_eq!(buffer.pop_ready(PtpTime::new(9, 0)).map(|e| e.1), Some("c"));
    assert!(buffer.is_empty());
}

#[test]
fn transfer_analysis_finds_the_first_differences() {
    let sent = [
        PacketMeta { seq_num: 0, avtp_timestamp: 10 },
        PacketMeta { seq_num: 1, avtp_timestamp: 20 },
        PacketMeta { seq_num: 2, avtp_timestamp: 30 },
    ];
    let received = [PacketMeta { seq_num: 0, avtp_timestamp: 10 }, PacketMeta { seq_num: 1, avtp_timestamp: 21 }];
    let report = analyze_transfer(&sent, &received, &[1, 2, 3, 4], &[1, 2, 9]);
    assert_eq!(report.packets_sent, 3);
    assert_eq!(report.packets_received, 2);
    assert_eq!(report.packets_lost, 1);
    assert_eq!(report.first_metadata_mismatch, Some(1));
    assert_eq!(report.pcm_bytes_sent, 4);
    assert_eq!(report.pcm_bytes_received, 3);
    assert_eq!(report.first_pcm_mismatch, Some(2));
    assert!(!report.passed());

    let ok = analyze_transfer(&sent, &sent, &[5, 6], &[5, 6]);
    assert!(ok.passed());
    assert_eq!(ok.packets_lost, 0);
    assert_eq!(ok.first_metadata_mismatch, None);

    let more_received = analyze_transfer(&received[..1], &received, &[], &[]);
    assert_eq!(more_received.packets_lost, 0);
    assert!(!more_received.passed());
}

#[test]
fn wav_sample_encodings_map_to_aaf_formats() {
    let header = |audio_format, bits| WavHeader {
        channels: 2,
        sample_rate: 48_000,
        bits_per_sample: bits,
        valid_bits_per_sample: bits,
        audio_format,
    };
    assert_eq!(pcm_format_for_wav(&header(WavAudioFormat::Pcm, 16)), Some(PcmFormat::Int16Bit));
    assert_eq!(pcm_format_for_wav(&header(WavAudioFormat::Pcm, 24)), Some(PcmFormat::Int24Bit));
    assert_eq!(pcm_format_for_wav(&header(WavAudioFormat::Pcm, 32)), Some(PcmFormat::Int32Bit));
    assert_eq!(pcm_format_for_wav(&header(WavAudioFormat::IeeeFloat, 32)), Some(PcmFormat::Float32Bit));
    assert_eq!(pcm_format_for_wav(&header(WavAudioFormat::Pcm, 8)), None);
    assert_eq!(pcm_format_for_wav(&header(WavAudioFormat::IeeeFloat, 64)), None);
    assert_eq!(pcm_format_for_wav(&header(WavAudioFormat::Other(2), 16)), None);
}

#[test]
fn swapping_twice_restores_the_samples() {
    let original: Vec<u8> = (0u8..11).collect();
    for word in 1..5 {
        let mut buf = original.clone();
        swap_byte_order(&mut buf, word);
        swap_byte_order(&mut buf, word);
        assert_eq!(buf, original);
    }
}

#[test]
fn packets_are_scheduled_at_multiples_of_their_duration() {
    assert_eq!(packet_send_offset_ns(0, 1_000_000), Some(0));
    assert_eq!(packet_send_offset_ns(3, 1_000_000), Some(3_000_000));
    assert_eq!(packet_send_offset_ns(u64::MAX, 2), None);
}
