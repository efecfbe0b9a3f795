use vstd::prelude::*;

use super::bytes::{
    le_u16, le_u32, lemma_u16_bytes_roundtrip, lemma_u32_bytes_roundtrip, lemma_u32_value_roundtrip,
    u16_from_le_bytes,
    u16_le_bytes, u32_from_le_bytes, u32_le_bytes,
};

verus! {

/// The length in bytes of a frame header on the wire.
pub const HEADER_LEN: usize = 8;

/// The header of a frame as it stands on the wire: command, channel and
/// payload length, each little end first.
#[derive(Clone, Copy, Debug, PartialEq, Eq, Structural)]
pub struct RawHeader {
    pub command: u16,
    pub channel: u16,
    pub payload_size: u32,
}

/// The header that eight bytes hold.
pub open spec fn header_from_bytes(b: Seq<u8>) -> RawHeader {
    RawHeader {
        command: le_u16(b[0], b[1]),
        channel: le_u16(b[2], b[3]),
        payload_size: le_u32(b[4], b[5], b[6], b[7]),
    }
}

/// The eight bytes of a header.
pub open spec fn header_to_bytes(h: RawHeader) -> Seq<u8> {
    u16_le_bytes(h.command) + u16_le_bytes(h.channel) + u32_le_bytes(h.payload_size)
}

impl From<[u8; 8]> for RawHeader {
    fn from(value: [u8; 8]) -> (r: RawHeader) {
        RawHeader {
            command: u16_from_le_bytes(value[0], value[1]),
            channel: u16_from_le_bytes(value[2], value[3]),
            payload_size: u32_from_le_bytes(value[4], value[5], value[6], value[7]),
        }
    }
}

impl vstd::std_specs::convert::FromSpecImpl<[u8; 8]> for RawHeader {
    open spec fn obeys_from_spec() -> bool {
        true
    }

    open spec fn from_spec(v: [u8; 8]) -> RawHeader {
        header_from_bytes(v@)
    }
}

impl RawHeader {
    /// The eight bytes of this header.
    pub fn to_bytes(&self) -> (r: [u8; 8])
        ensures
            r@ == header_to_bytes(*self),
    {
        let c = self.command;
        let ch = self.channel;
        let p = self.payload_size;
        let r = [
            (c % 256) as u8,
            (c / 256) as u8,
            (ch % 256) as u8,
            (ch / 256) as u8,
            (p % 256) as u8,
            ((p / 256) % 256) as u8,
            ((p / 65536) % 256) as u8,
            (p / 16777216) as u8,
        ];
        assert(r@ =~= header_to_bytes(*self));
        r
    }
}

/// Writing a header out and reading it back gives the same header.
pub proof fn lemma_header_roundtrip(h: RawHeader)
    ensures
        header_from_bytes(header_to_bytes(h)) == h,
{
}

/// Reading a header from eight bytes and writing it out gives back the bytes.
pub proof fn lemma_header_bytes_roundtrip(b: Seq<u8>)
    requires
        b.len() == HEADER_LEN,
    ensures
        header_to_bytes(header_from_bytes(b)) == b,
{
    lemma_u16_bytes_roundtrip(b[0], b[1]);
    lemma_u16_bytes_roundtrip(b[2], b[3]);
    lemma_u32_bytes_roundtrip(b[4], b[5], b[6], b[7]);
    assert(header_to_bytes(header_from_bytes(b)) =~= b);
}

/// The wire layout of a header: eight bytes, the command in the first two,
/// the channel in the next two and the payload length in the last four,
/// each little end first.
pub proof fn lemma_header_layout(h: RawHeader, b: Seq<u8>)
    requires
        b.len() == 8,
    ensures
        header_to_bytes(h).len() == 8,
        header_to_bytes(h)[0] + 256 * header_to_bytes(h)[1] == h.command,
        header_to_bytes(h)[2] + 256 * header_to_bytes(h)[3] == h.channel,
        header_to_bytes(h)[4] + 256 * header_to_bytes(h)[5] + 65536 * header_to_bytes(h)[6]
            + 16777216 * header_to_bytes(h)[7] == h.payload_size,
        header_from_bytes(b).command == b[0] + 256 * b[1],
        header_from_bytes(b).channel == b[2] + 256 * b[3],
        header_from_bytes(b).payload_size == b[4] + 256 * b[5] + 65536 * b[6] + 16777216 * b[7],
{
    lemma_u32_value_roundtrip(h.payload_size);
}

} // verus!
