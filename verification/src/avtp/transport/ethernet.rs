//! AVTP over Ethernet II: the frame around a data unit, and the frames that
//! carry one.

use vstd::prelude::*;

use crate::avtp::avtpdu::{avtpdu_bytes, avtpdu_decodable, avtpdu_encodable, parse_avtpdu, write_outcome};
use crate::avtp::headers::HeaderType;
use crate::avtp::subtype::Subtype;
use crate::avtp::{Avtpdu, AvtpduError};
use crate::io::bytes::{be16, be16_value, copy_range, push_be16, push_bytes};
use crate::io::enc_dec::IOWrapError;
use crate::net::mac_address::MacAddress;

verus! {

/// The EtherType of AVTP frames.
pub const ETHER_TYPE: u16 = 0x22F0;

/// Errors of sending AVTP data units over Ethernet.
#[derive(Debug)]
pub enum EthernetSenderError {
    /// Opening the datalink channel failed.
    ChannelOpen(std::io::Error),
    /// The interface has no MAC address.
    NoMac,
    /// The data unit could not be serialized.
    Serialize(IOWrapError<AvtpduError>),
    /// Sending the frame failed.
    Send(std::io::Error),
}

/// Errors of receiving AVTP data units over Ethernet.
#[derive(Debug)]
pub enum EthernetReceiverError {
    /// Opening the datalink channel failed.
    ChannelOpen(std::io::Error),
    /// Receiving a frame failed.
    Receive(std::io::Error),
    /// The AVTP data unit of a frame could not be parsed.
    Parse(IOWrapError<AvtpduError>),
}

/// The Ethernet II header of an AVTP frame: destination, source, EtherType.
pub open spec fn frame_header(dst: MacAddress, src: MacAddress) -> Seq<u8> {
    dst.0@ + src.0@ + be16(ETHER_TYPE)
}

/// Fills `frame` with the Ethernet II frame that carries `packet` from `src` to
/// `dst`.
///
/// On a serialization error the frame holds the header only.
pub fn write_frame(frame: &mut Vec<u8>, dst: &MacAddress, src: &MacAddress, packet: &Avtpdu) -> (r:
    Result<(), EthernetSenderError>)
    requires
        avtpdu_encodable(packet@),
    ensures
        match write_outcome(packet@) {
            Ok(()) => r is Ok && final(frame)@ == frame_header(*dst, *src) + avtpdu_bytes(packet@),
            Err(e) => r matches Err(EthernetSenderError::Serialize(x)) && x == e && final(frame)@
                == frame_header(*dst, *src),
        },
{
    frame.clear();
    push_bytes(frame, &dst.0);
    push_bytes(frame, &src.0);
    push_be16(frame, ETHER_TYPE);
    assert(frame@ =~= frame_header(*dst, *src));
    match packet.write(frame) {
        Ok(()) => Ok(()),
        Err(e) => Err(EthernetSenderError::Serialize(e)),
    }
}

/// Whether a frame is an AVTP frame: a full Ethernet II header with the AVTP
/// EtherType.
pub open spec fn is_avtp_frame(f: Seq<u8>) -> bool {
    f.len() >= 14 && be16_value(f[12], f[13]) == ETHER_TYPE
}

/// The payload of an Ethernet II frame.
pub open spec fn frame_payload(f: Seq<u8>) -> Seq<u8> {
    f.subrange(14, f.len() as int)
}

/// Whether the data unit at the start of the bytes has a header that can be
/// decoded (alternative headers cannot).
pub fn is_decodable(bytes: &[u8]) -> (r: bool)
    ensures
        r == avtpdu_decodable(bytes@),
{
    if bytes.len() < 2 {
        return true;
    }
    match Subtype::from_u8(bytes[0]) {
        Ok(s) => !matches!(s.header_type(), HeaderType::Alternative),
        Err(_) => true,
    }
}

/// Whether a frame can be handed to [`parse_frame`]: it is not an AVTP frame,
/// or its data unit can be decoded.
pub fn frame_decodable(frame: &[u8]) -> (r: bool)
    ensures
        r == (is_avtp_frame(frame@) ==> avtpdu_decodable(frame_payload(frame@))),
{
    if frame.len() < 14 || (frame[12] as u16) * 0x100 + (frame[13] as u16) != ETHER_TYPE {
        return true;
    }
    let payload = copy_range(frame, 14, frame.len());
    is_decodable(payload.as_slice())
}

/// The AVTP data unit a received frame carries: `None` for frames that are not
/// AVTP frames, which are to be skipped.
pub fn parse_frame(frame: &[u8]) -> (r: Option<Result<Avtpdu, EthernetReceiverError>>)
    requires
        is_avtp_frame(frame@) ==> avtpdu_decodable(frame_payload(frame@)),
    ensures
        !is_avtp_frame(frame@) ==> r is None,
        is_avtp_frame(frame@) ==> match parse_avtpdu(frame_payload(frame@)) {
            Ok(v) => r matches Some(Ok(p)) && p@ == v,
            Err(k) => r matches Some(Err(EthernetReceiverError::Parse(x))) && x == k,
        },
{
    if frame.len() < 14 {
        return None;
    }
    let ethertype = (frame[12] as u16) * 0x100 + (frame[13] as u16);
    if ethertype != ETHER_TYPE {
        return None;
    }
    let payload = copy_range(frame, 14, frame.len());
    match Avtpdu::read(payload.as_slice()) {
        Ok(p) => Some(Ok(p)),
        Err(e) => Some(Err(EthernetReceiverError::Parse(e))),
    }
}

} // verus!
