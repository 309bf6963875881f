use rs_1722::audio::wav::{
    Wav, WavAudioFormat, WavChunk, WavError, WavHeader, WavPreamble, DATA, FMT, RIFF, WAVE,
};
use rs_1722::io::enc_dec::IoError;

fn pcm16_stereo() -> WavHeader {
    WavHeader {
        channels: 2,
        sample_rate: 48_000,
        bits_per_sample: 16,
        valid_bits_per_sample: 16,
        audio_format: WavAudioFormat::Pcm,
    }
}

fn le32(x: u32) -> [u8; 4] {
    x.to_le_bytes()
}

#[test]
fn written_file_has_exact_sizes() {
    let wav = Wav::from_header_and_data(pcm16_stereo(), vec![1, 2, 3, 4, 5]);
    let mut out = Vec::new();
    wav.write(&mut out).unwrap();

    let mut expected = Vec::new();
    expected.extend_from_slice(&RIFF);
    expected.extend_from_slice(&le32(4 + 24 + 14));
    expected.extend_from_slice(&WAVE);
    expected.extend_from_slice(&FMT);
    expected.extend_from_slice(&le32(16));
    expected.extend_from_slice(&1u16.to_le_bytes());
    expected.extend_from_slice(&2u16.to_le_bytes());
    expected.extend_from_slice(&48_000u32.to_le_bytes());
    expected.extend_from_slice(&(48_000u32 * 2 * 2).to_le_bytes());
    expected.extend_from_slice(&4u16.to_le_bytes());
    expected.extend_from_slice(&16u16.to_le_bytes());
    expected.extend_from_slice(&DATA);
    expected.extend_from_slice(&le32(5));
    expected.extend_from_slice(&[1, 2, 3, 4, 5, 0]);
    assert_eq!(out, expected);
}

#[test]
fn reading_a_written_file_gives_it_back() {
    let mut wav = Wav::from_header_and_data(pcm16_stereo(), vec![9; 11]);
    wav.chunks_before_fmt.push(WavChunk::new(*b"JUNK", vec![0xAA; 3]));
    wav.chunks_before_data.push(WavChunk::new(*b"LIST", vec![1, 2]));
    wav.chunks_after_data.push(WavChunk::new(*b"id3 ", vec![7]));
    let mut out = Vec::new();
    wav.write(&mut out).unwrap();
    let back = Wav::read(&out).unwrap();
    assert_eq!(back, wav);
}

#[test]
fn extensible_header_round_trips_with_canonical_extension() {
    let header = WavHeader {
        channels: 6,
        sample_rate: 96_000,
        bits_per_sample: 32,
        valid_bits_per_sample: 24,
        audio_format: WavAudioFormat::Pcm,
    };
    let wav = Wav::from_header_and_data(header, vec![0; 36]);
    let mut out = Vec::new();
    wav.write(&mut out).unwrap();
    // the format tag is WAVE_FORMAT_EXTENSIBLE and the chunk is 40 bytes long
    assert_eq!(&out[20..22], &0xFFFEu16.to_le_bytes());
    assert_eq!(&out[16..20], &le32(40));
    let back = Wav::read(&out).unwrap();
    assert_eq!(back.header, header);
    assert_eq!(back.data, wav.data);
    assert_eq!(back.fmt_extension, header.extensible_fmt_extension());
    assert_eq!(back.fmt_extension.len(), 24);
}

#[test]
fn needs_extensible_format_cases() {
    let mut h = pcm16_stereo();
    assert!(!h.needs_extensible_format());
    h.channels = 3;
    assert!(h.needs_extensible_format());
    h = pcm16_stereo();
    h.bits_per_sample = 24;
    h.valid_bits_per_sample = 24;
    assert!(h.needs_extensible_format());
    h.audio_format = WavAudioFormat::IeeeFloat;
    assert!(!h.needs_extensible_format());
    h.valid_bits_per_sample = 20;
    assert!(h.needs_extensible_format());
}

#[test]
fn audio_format_tags() {
    assert_eq!(WavAudioFormat::from(1u16), WavAudioFormat::Pcm);
    assert_eq!(WavAudioFormat::from(3u16), WavAudioFormat::IeeeFloat);
    assert_eq!(WavAudioFormat::from(0x55u16), WavAudioFormat::Other(0x55));
    assert_eq!(u16::from(WavAudioFormat::IeeeFloat), 3);
    assert_eq!(u16::from(WavAudioFormat::Other(9)), 9);
}

#[test]
fn wrong_magic_is_reported() {
    let bytes = b"RIFX\x04\x00\x00\x00WAVE".to_vec();
    match Wav::read(&bytes) {
        Err(WavError::InvalidMagic { found, expected }) => {
            assert_eq!(found, *b"RIFX");
            assert_eq!(expected, RIFF);
        }
        other => panic!("unexpected: {other:?}"),
    }
    let bytes = b"RIFF\x04\x00\x00\x00AVI ".to_vec();
    assert!(matches!(
        Wav::read(&bytes),
        Err(WavError::InvalidMagic { expected, .. }) if expected == WAVE
    ));
}

#[test]
fn truncated_header_is_unexpected_eof() {
    assert!(matches!(Wav::read(b"RIFF\x00"), Err(WavError::Io(IoError::UnexpectedEof))));
    assert!(matches!(Wav::read(b"RI"), Err(WavError::Io(IoError::UnexpectedEof))));
}

#[test]
fn missing_chunks_are_reported() {
    let mut bytes = b"RIFF\x04\x00\x00\x00WAVE".to_vec();
    assert!(matches!(Wav::read(&bytes), Err(WavError::MissingFmtChunk)));
    bytes.extend_from_slice(b"data\x00\x00\x00\x00");
    assert!(matches!(Wav::read(&bytes), Err(WavError::DataBeforeFmt)));

    let mut out = Vec::new();
    Wav::from_header_and_data(pcm16_stereo(), vec![]).write(&mut out).unwrap();
    out.truncate(12 + 24);
    assert!(matches!(Wav::read(&out), Err(WavError::MissingDataChunk)));
}

#[test]
fn short_format_chunk_is_invalid_size() {
    let mut bytes = b"RIFF\x00\x00\x00\x00WAVE".to_vec();
    bytes.extend_from_slice(b"fmt ");
    bytes.extend_from_slice(&le32(4));
    bytes.extend_from_slice(&[1, 0, 2, 0]);
    match Wav::read(&bytes) {
        Err(WavError::InvalidChunkSize { chunk_id, found_size, expected_size }) => {
            assert_eq!(chunk_id, FMT);
            assert_eq!(found_size, 4);
            assert_eq!(expected_size, 16..=u32::MAX);
        }
        other => panic!("unexpected: {other:?}"),
    }
}

#[test]
fn short_extensible_chunk_is_invalid_size() {
    let mut bytes = b"RIFF\x00\x00\x00\x00WAVE".to_vec();
    bytes.extend_from_slice(b"fmt ");
    bytes.extend_from_slice(&le32(16));
    bytes.extend_from_slice(&0xFFFEu16.to_le_bytes());
    bytes.extend_from_slice(&[0; 14]);
    assert!(matches!(
        Wav::read(&bytes),
        Err(WavError::InvalidChunkSize { found_size: 16, ref expected_size, .. })
            if *expected_size == (40..=u32::MAX)
    ));
}

#[test]
fn truncated_payload_is_unexpected_eof() {
    let mut out = Vec::new();
    Wav::from_header_and_data(pcm16_stereo(), vec![1, 2, 3, 4]).write(&mut out).unwrap();
    out.pop();
    assert!(matches!(Wav::read(&out), Err(WavError::Io(IoError::UnexpectedEof))));
}

#[test]
fn preamble_stops_at_the_payload() {
    let mut out = Vec::new();
    let wav = Wav::from_header_and_data(pcm16_stereo(), vec![5, 6, 7, 8]);
    wav.write(&mut out).unwrap();
    let (preamble, start) = WavPreamble::read(&out).unwrap();
    assert_eq!(preamble.header, pcm16_stereo());
    assert_eq!(preamble.data_size, 4);
    assert_eq!(&out[start..start + 4], &[5, 6, 7, 8]);
}

#[test]
fn streaming_preamble_declares_unbounded_sizes() {
    let preamble = WavPreamble {
        chunks_before_fmt: vec![],
        header: pcm16_stereo(),
        fmt_extension: vec![],
        chunks_before_data: vec![WavChunk::new(*b"LIST", vec![1, 2, 3])],
        data_size: 0,
    };
    let mut out = Vec::new();
    preamble.write_stream(&mut out).unwrap();
    assert_eq!(&out[4..8], &le32(0xFFFF_FFFF));
    assert_eq!(&out[out.len() - 4..], &le32(0xFFFF_FFFF));
    let (back, start) = WavPreamble::read(&out).unwrap();
    assert_eq!(start, out.len());
    assert_eq!(back.data_size, 0xFFFF_FFFF);
    assert_eq!(back.chunks_before_data, preamble.chunks_before_data);
    assert_eq!(back.header, preamble.header);
}

#[test]
fn chunk_bytes_are_padded_to_even_length() {
    let chunk = WavChunk::new(*b"abcd", vec![1, 2, 3]);
    let mut out = Vec::new();
    chunk.write(&mut out).unwrap();
    assert_eq!(out, b"abcd\x03\x00\x00\x00\x01\x02\x03\x00".to_vec());
    assert_eq!(chunk.serialized_size(), 12);
}

#[test]
fn header_encodability_bounds_the_derived_fields() {
    assert!(pcm16_stereo().is_encodable());
    let wide = WavHeader { channels: 0xFFFF, bits_per_sample: 32, valid_bits_per_sample: 32, ..pcm16_stereo() };
    assert!(!wide.is_encodable());
    let fast = WavHeader { channels: 1, sample_rate: u32::MAX, ..pcm16_stereo() };
    assert!(!fast.is_encodable());
}

#[test]
fn own_format_extension_and_extra_chunks_round_trip() {
    let mut wav = Wav::from_header_and_data(pcm16_stereo(), vec![1, 2, 3, 4, 5]);
    wav.fmt_extension = vec![0, 0, 7];
    wav.chunks_before_fmt.push(WavChunk::new(*b"LIST", vec![9, 8, 7]));
    wav.chunks_after_data.push(WavChunk::new(*b"id3 ", vec![1]));
    let mut out = Vec::new();
    wav.write(&mut out).unwrap();
    assert_eq!(Wav::read(&out).unwrap(), wav);
}
