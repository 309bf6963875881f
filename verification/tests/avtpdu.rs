use rs_1722::avtp::headers::{CommonHeader, ControlHeader, GenericStreamData, SpecificStreamData, StreamHeader};
use rs_1722::avtp::transport::ethernet::{frame_decodable, is_decodable, parse_frame, write_frame, EthernetReceiverError, ETHER_TYPE};
use rs_1722::avtp::{Avtpdu, AvtpduError, EncapsulationStyle, HeaderType, StreamID, Subtype, UnknownSubtype};
use rs_1722::io::enc_dec::{IOWrapError, IoError};
use rs_1722::net::MacAddress;

fn stream_id() -> StreamID {
    StreamID { mac_address: MacAddress([0xa, 0xb, 0xc, 0xd, 0xe, 0xf]), unique_id: 0x1234 }
}

fn control_packet() -> Avtpdu {
    Avtpdu::Control(ControlHeader {
        common: CommonHeader { subtype: Subtype::ADP, header_specific_bit: true, version: 0 },
        format_specific_data: 5,
        control_data_length: 3,
        stream_id: stream_id(),
        control_data_payload: vec![7, 8, 9],
    })
}

fn stream_packet(subtype: Subtype) -> Avtpdu {
    Avtpdu::Stream(StreamHeader {
        generic: GenericStreamData {
            common: CommonHeader { subtype, header_specific_bit: true, version: 0 },
            media_clock_restart: false,
            avtp_timestamp_valid: true,
            sequence_num: 42,
            timestamp_uncertain: false,
            stream_id: stream_id(),
            avtp_timestamp: 0xCAFE_BABE,
            stream_data_length: 2,
        },
        specific: SpecificStreamData {
            format_specific_data: 0,
            format_specific_data_1: 0,
            format_specific_data_2: [0; 4],
            format_specific_data_3: [0; 2],
            stream_data_payload: vec![0x11, 0x22],
        },
    })
}

#[test]
fn control_packet_round_trips() {
    let packet = control_packet();
    let mut bytes = Vec::new();
    packet.write(&mut bytes).unwrap();
    assert_eq!(bytes[0], 0xFA);
    let back = Avtpdu::read(&bytes).unwrap();
    match back {
        Avtpdu::Control(h) => {
            assert_eq!(h.format_specific_data, 5);
            assert_eq!(h.control_data_length, 3);
            assert_eq!(h.stream_id, stream_id());
            assert_eq!(h.control_data_payload, vec![7, 8, 9]);
        }
        other => panic!("unexpected: {other:?}"),
    }
    assert_eq!(packet.header_type(), HeaderType::Control);
    assert_eq!(packet.subtype(), Subtype::ADP);
}

#[test]
fn stream_packet_round_trips() {
    let packet = stream_packet(Subtype::AAF);
    let mut bytes = Vec::new();
    packet.write(&mut bytes).unwrap();
    assert_eq!(bytes.len(), 24 + 2);
    match Avtpdu::read(&bytes).unwrap() {
        Avtpdu::Stream(h) => {
            assert_eq!(h.generic.sequence_num, 42);
            assert_eq!(h.generic.avtp_timestamp, 0xCAFE_BABE);
            assert_eq!(h.specific.stream_data_payload, vec![0x11, 0x22]);
        }
        other => panic!("unexpected: {other:?}"),
    }
}

#[test]
fn header_layout_must_suit_the_subtype() {
    let mut bytes = Vec::new();
    let result = stream_packet(Subtype::ADP).write(&mut bytes);
    assert!(matches!(result, Err(IOWrapError::Specific(AvtpduError::IncompatibleSubtype(_)))));
    assert!(bytes.is_empty());
}

#[test]
fn unknown_subtypes_and_short_input_are_errors() {
    assert!(matches!(
        Avtpdu::read(&[0x7E, 0x00, 0x00, 0x00]),
        Err(IOWrapError::Specific(AvtpduError::UnknownSubtype(UnknownSubtype(0x7E))))
    ));
    assert!(matches!(Avtpdu::read(&[0x02]), Err(IOWrapError::Io(IoError::UnexpectedEof))));
    assert!(matches!(Avtpdu::read(&[0x02, 0x80, 0x00]), Err(IOWrapError::Io(IoError::UnexpectedEof))));
}

#[test]
fn subtypes_know_their_layout_and_style() {
    assert_eq!(Subtype::from_u8(0x82).unwrap(), Subtype::NTSCF);
    assert_eq!(Subtype::NTSCF.as_u8(), 0x82);
    assert_eq!(Subtype::NTSCF.header_type(), HeaderType::Alternative);
    assert_eq!(Subtype::NTSCF.encapsulation_style(), EncapsulationStyle::Discrete);
    assert_eq!(Subtype::AAF.header_type(), HeaderType::Stream);
    assert_eq!(Subtype::AAF.encapsulation_style(), EncapsulationStyle::Continuous);
    assert_eq!(Subtype::from_u8(0x10), Err(UnknownSubtype(0x10)));
    assert_eq!(Subtype::try_from(0xFDu8).unwrap(), Subtype::MAAP);
}

#[test]
fn ethernet_frames_carry_avtp_packets() {
    let dst = MacAddress([1, 1, 1, 1, 1, 1]);
    let src = MacAddress([2, 2, 2, 2, 2, 2]);
    let mut frame = vec![0xEE; 3];
    write_frame(&mut frame, &dst, &src, &control_packet()).unwrap();
    assert_eq!(&frame[0..6], &dst.0);
    assert_eq!(&frame[6..12], &src.0);
    assert_eq!(&frame[12..14], &ETHER_TYPE.to_be_bytes());
    assert!(frame_decodable(&frame));
    match parse_frame(&frame) {
        Some(Ok(Avtpdu::Control(h))) => assert_eq!(h.control_data_payload, vec![7, 8, 9]),
        other => panic!("unexpected: {other:?}"),
    }
}

#[test]
fn other_frames_are_skipped() {
    let mut frame = vec![0u8; 20];
    frame[12] = 0x08;
    frame[13] = 0x00;
    assert!(parse_frame(&frame).is_none());
    assert!(parse_frame(&[0x22, 0xF0]).is_none());
    let mut short = vec![0u8; 14];
    short[12] = 0x22;
    short[13] = 0xF0;
    assert!(matches!(
        parse_frame(&short),
        Some(Err(EthernetReceiverError::Parse(IOWrapError::Io(IoError::UnexpectedEof))))
    ));
}

#[test]
fn alternative_headers_cannot_be_decoded() {
    assert!(!is_decodable(&[0x82, 0x00]));
    assert!(is_decodable(&[0x02, 0x00]));
    assert!(is_decodable(&[0x82]));
}

#[test]
fn encodability_follows_the_length_fields() {
    assert!(control_packet().is_encodable());
    assert!(stream_packet(Subtype::AAF).is_encodable());
    let mut short = control_packet();
    if let Avtpdu::Control(h) = &mut short {
        h.control_data_length = 4;
    }
    assert!(!short.is_encodable());
}
