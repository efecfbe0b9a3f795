use vstd::prelude::*;

use super::bytes::{le_u32_of, u32_from_le_bytes};
use super::channel::Channel;
use super::command::Command;
use super::command_id::CommandId;

verus! {

/// A request for the configuration word with identifier `word_id`.
#[derive(Debug)]
pub struct GetConfigWord {
    pub word_id: u32,
}

impl GetConfigWord {
    /// The request that a `GetConfigWord` command carries: its four payload
    /// bytes, little end first, are the word identifier.
    pub fn from(value: Command) -> (r: GetConfigWord)
        requires
            value.command_id == CommandId::GetConfigWord,
            value.payload.len() == 4,
        ensures
            r.word_id == le_u32_of(value.payload@),
    {
        let p = &value.payload;
        GetConfigWord { word_id: u32_from_le_bytes(p[0], p[1], p[2], p[3]) }
    }
}

/// A packet travelling through link `link_id`.
#[derive(Debug)]
pub struct LinkTransmit {
    pub link_id: u16,
    pub payload: Vec<u8>,
}

impl LinkTransmit {
    /// The packet that a link command carries: the link is the command's
    /// channel, the packet its payload.
    pub fn from(value: Command) -> (r: LinkTransmit)
        requires
            value.channel is Other,
        ensures
            value.channel == Channel::Other(r.link_id),
            r.payload@ == value.payload@,
    {
        LinkTransmit { link_id: value.channel.other(), payload: value.payload }
    }
}

} // verus!
