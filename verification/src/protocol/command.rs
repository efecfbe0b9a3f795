use vstd::prelude::*;

use super::channel::{channel_from_wire, channel_to_wire, Channel, CONTROL_CHANNEL};
use super::command_id::{
    command_id_from_wire, command_id_is_canonical, command_id_to_wire, CommandId,
};
use super::raw_header::{header_from_bytes, header_to_bytes, lemma_header_roundtrip, RawHeader};

verus! {

/// A command exchanged with an emulator instance: what it asks for, the
/// channel it travels on, and its payload.
#[derive(Debug)]
pub struct Command {
    pub command_id: CommandId,
    pub channel: Channel,
    pub payload: Vec<u8>,
}

/// The header that announces a command on the wire. The payload length is
/// cut to 32 bits, as the wire field holds no more.
pub open spec fn command_header(c: Command) -> RawHeader {
    RawHeader {
        command: command_id_to_wire(c.command_id),
        channel: channel_to_wire(c.channel),
        payload_size: c.payload.len() as u32,
    }
}

impl Command {
    /// The eight header bytes that precede this command's payload on the
    /// wire.
    pub fn encode_header(&self) -> (r: [u8; 8])
        ensures
            r@ == header_to_bytes(command_header(*self)),
    {
        RawHeader {
            command: u16::from(self.command_id),
            channel: u16::from(self.channel),
            payload_size: self.payload.len() as u32,
        }.to_bytes()
    }

    /// The command that a header read from the wire and the payload read
    /// after it make up.
    pub fn from_raw(header: RawHeader, payload: Vec<u8>) -> (r: Command)
        requires
            payload.len() == header.payload_size,
        ensures
            r.command_id == command_id_from_wire(header.command),
            r.channel == channel_from_wire(header.channel),
            r.payload@ == payload@,
    {
        Command {
            command_id: CommandId::from(header.command),
            channel: Channel::from(header.channel),
            payload,
        }
    }
}

/// A command whose header is written out and read back, and whose payload
/// follows it, comes back as the same command when its identifier and its
/// channel survive the wire (see `command_id_is_canonical`) and its payload
/// length fits in the header.
pub proof fn lemma_command_frame_roundtrip(c: Command)
    requires
        c.payload.len() <= u32::MAX,
        command_id_is_canonical(c.command_id),
        c.channel != Channel::Other(CONTROL_CHANNEL),
    ensures
        ({
            let h = header_from_bytes(header_to_bytes(command_header(c)));
            &&& h.payload_size == c.payload.len()
            &&& command_id_from_wire(h.command) == c.command_id
            &&& channel_from_wire(h.channel) == c.channel
        }),
{
    lemma_header_roundtrip(command_header(c));
}

/// The header of a command carries the wire value of its identifier, the
/// wire value of its channel, and the length of its payload.
pub proof fn lemma_command_header(c: Command)
    requires
        c.payload.len() <= u32::MAX,
    ensures
        command_header(c).command == command_id_to_wire(c.command_id),
        command_header(c).channel == channel_to_wire(c.channel),
        command_header(c).payload_size == c.payload.len(),
{
}

} // verus!
