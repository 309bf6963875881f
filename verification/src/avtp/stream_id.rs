use vstd::prelude::*;

use crate::io::bytes::{be16, be16_value, push_be16, push_bytes};
use crate::net::mac_address::MacAddress;

verus! {

/// Canonical 64-bit stream identifier: the talker's MAC address and a per-talker
/// discriminator.
#[derive(Debug, Clone, Copy, PartialEq, Eq)]
pub struct StreamID {
    /// MAC address of the talker that originates the stream.
    pub mac_address: MacAddress,
    /// Per-talker discriminator for multiple streams from the same MAC.
    pub unique_id: u16,
}

/// The 8 wire bytes of a stream identifier.
pub open spec fn stream_id_bytes(id: StreamID) -> Seq<u8> {
    id.mac_address.0@ + be16(id.unique_id)
}

/// The stream identifier held in 8 wire bytes starting at `pos`.
pub open spec fn stream_id_at(b: Seq<u8>, pos: int) -> StreamID {
    StreamID {
        mac_address: MacAddress([b[pos], b[pos + 1], b[pos + 2], b[pos + 3], b[pos + 4], b[pos + 5]]),
        unique_id: be16_value(b[pos + 6], b[pos + 7]),
    }
}

/// Decoding the bytes of an identifier gives it back, and the bytes of a decoded
/// identifier are the bytes it was decoded from.
pub proof fn lemma_stream_id_roundtrip(id: StreamID, b: Seq<u8>, pos: int)
    requires
        0 <= pos && pos + 8 <= b.len(),
    ensures
        stream_id_at(stream_id_bytes(id), 0) == id,
        stream_id_bytes(stream_id_at(b, pos)) =~= b.subrange(pos, pos + 8),
{
    let s = stream_id_bytes(id);
    crate::io::bytes::lemma_be16(id.unique_id, b[pos + 6], b[pos + 7]);
    let m = stream_id_at(s, 0).mac_address.0;
    assert(m@ =~= id.mac_address.0@);
    assert(m == id.mac_address.0);
    let m2 = stream_id_at(b, pos).mac_address.0;
    assert(m2@ =~= b.subrange(pos, pos + 6));
}

impl StreamID {
    /// Whether two identifiers name the same stream.
    pub fn same_as(&self, other: &StreamID) -> (r: bool)
        ensures
            r == (*self == *other),
    {
        self.mac_address.same_as(&other.mac_address) && self.unique_id == other.unique_id
    }

    /// Appends the 8 wire bytes of this identifier.
    pub fn encode(&self, out: &mut Vec<u8>)
        ensures
            final(out)@ == old(out)@ + stream_id_bytes(*self),
    {
        push_bytes(out, &self.mac_address.0);
        push_be16(out, self.unique_id);
        assert(final(out)@ =~= old(out)@ + stream_id_bytes(*self));
    }

    /// Reads the identifier held in the 8 bytes starting at `pos`.
    pub fn decode_at(bytes: &[u8], pos: usize) -> (r: Self)
        requires
            pos + 8 <= bytes@.len(),
        ensures
            r == stream_id_at(bytes@, pos as int),
    {
        let mac = [
            bytes[pos],
            bytes[pos + 1],
            bytes[pos + 2],
            bytes[pos + 3],
            bytes[pos + 4],
            bytes[pos + 5],
        ];
        let unique_id = (bytes[pos + 6] as u16) * 0x100 + (bytes[pos + 7] as u16);
        StreamID { mac_address: MacAddress(mac), unique_id }
    }
}

} // verus!
