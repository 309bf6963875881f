use vstd::prelude::*;

use crate::avtp::avtpdu::Avtpdu;
use crate::avtp::stream_id::StreamID;
use crate::net::mac_address::MacAddress;
use crate::ptp_phc::time::PtpTime;

verus! {

/// Which streams to accept when listening to AVTP packets.
#[derive(Debug, Clone, Copy)]
pub enum StreamFilter {
    /// Accept packets from any stream.
    Any,
    /// Accept packets only from a specific MAC address, regardless of stream UID.
    MacOnly(MacAddress),
    /// Accept packets only from an exact stream ID (MAC + UID combination).
    Exact(StreamID),
}

/// Whether a filter accepts a stream.
pub open spec fn filter_accepts(f: StreamFilter, id: StreamID) -> bool {
    match f {
        StreamFilter::Any => true,
        StreamFilter::MacOnly(mac) => id.mac_address == mac,
        StreamFilter::Exact(e) => id == e,
    }
}

impl StreamFilter {
    /// Returns `true` if the given stream ID matches this filter.
    pub fn matches(&self, stream_id: StreamID) -> (r: bool)
        ensures
            r == filter_accepts(*self, stream_id),
    {
        match self {
            Self::Any => true,
            Self::MacOnly(mac) => stream_id.mac_address.same_as(mac),
            Self::Exact(id) => stream_id.same_as(id),
        }
    }
}

/// Encodes media into AVTP packets, one packet per call, stamped from the PTP time
/// read just before the call.
pub trait StreamTalker {
    /// Error type returned by talker operations.
    type Error;

    /// Builds the next AVTP packet for transmission.
    fn build_packet(&mut self, ptp_time: PtpTime, payload: Vec<u8>) -> Result<Avtpdu, Self::Error>;
}

/// Decodes media from AVTP packets.
pub trait StreamListener {
    /// The decoded output type produced by processing packets.
    type Output;

    /// Error type returned by listener operations.
    type Error;

    /// Processes an incoming AVTP packet: `Ok(Some(output))` if it is accepted and
    /// holds valid data, `Ok(None)` if it is filtered out or not applicable.
    fn process(&mut self, pdu: &Avtpdu) -> Result<Option<Self::Output>, Self::Error>;
}

} // verus!
