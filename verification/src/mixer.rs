use std::collections::HashMap;

use vstd::prelude::*;

use crate::device::{is_link_recv, Device};
use crate::protocol::channel::Channel;
use crate::protocol::command::Command;
use crate::protocol::command_id::CommandId;
use crate::protocol::requests::LinkTransmit;

verus! {

broadcast use vstd::std_specs::hash::group_hash_axioms;

/// The link mixer: it numbers the links and knows, for each link whose
/// output is connected, the device that receives what travels through it.
pub struct Mixer {
    connections: HashMap<u16, u32>,
    links: u16,
}

/// What a mixer is, seen from outside: the device each connected link
/// delivers to, and the number of links made so far.
pub struct MixerState {
    pub connections: Map<u16, u32>,
    pub links: u16,
}

impl View for Mixer {
    type V = MixerState;

    closed spec fn view(&self) -> MixerState {
        MixerState { connections: self.connections@, links: self.links }
    }
}

impl Mixer {
    /// A mixer with no links.
    pub fn new() -> (r: Mixer)
        ensures
            r@.connections == Map::<u16, u32>::empty(),
            r@.links == 0,
    {
        Mixer { connections: HashMap::new(), links: 0 }
    }

    /// The number of links made so far.
    pub fn link_count(&self) -> (r: u16)
        ensures
            r == self@.links,
    {
        self.links
    }

    /// Makes a new link and returns its number: links are numbered from 0
    /// in the order they are made.
    pub fn create_link(&mut self) -> (link_id: u16)
        requires
            old(self)@.links < u16::MAX,
        ensures
            link_id == old(self)@.links,
            final(self)@.links == old(self)@.links + 1,
            final(self)@.connections == old(self)@.connections,
    {
        let link_id = self.links;
        self.links = self.links + 1;
        link_id
    }

    /// Connects the output of link `link_id` to `device`: what travels
    /// through the link from now on is delivered to that device.
    pub fn connect_link_output(&mut self, link_id: u16, device: &Device)
        ensures
            final(self)@.links == old(self)@.links,
            final(self)@.connections == old(self)@.connections.insert(link_id, device@.id),
    {
        self.connections.insert(link_id, device.get_id());
    }

    /// Where a packet sent into a link goes: the device connected to the
    /// link's output, with the command that hands it the packet; nowhere
    /// when no device listens on the link.
    pub fn link_send(&self, req: LinkTransmit) -> (r: Option<(u32, Command)>)
        ensures
            match r {
                Some((device_id, c)) => self@.connections.contains_key(req.link_id)
                    && device_id == self@.connections[req.link_id] && is_link_recv(
                    c,
                    req.link_id,
                    req.payload@,
                ),
                None => !self@.connections.contains_key(req.link_id),
            },
            r matches Some((_, c)) ==> c.command_id == CommandId::LinkRecv && c.channel
                == Channel::Other(req.link_id) && c.payload@ == req.payload@,
    {
        let LinkTransmit { link_id, payload } = req;
        match self.connections.get(&link_id) {
            Some(device_id) => Some(
                (
                    *device_id,
                    Command {
                        command_id: CommandId::LinkRecv,
                        channel: Channel::Other(link_id),
                        payload,
                    },
                ),
            ),
            None => None,
        }
    }
}

impl Default for Mixer {
    fn default() -> (r: Mixer)
        ensures
            r@.connections == Map::<u16, u32>::empty(),
            r@.links == 0,
    {
        Mixer::new()
    }
}

/// Once the output of a link is connected to a device, a packet sent into
/// the link is delivered to that device, as a `LinkRecv` command on the
/// link's channel that carries the packet unchanged.
pub proof fn lemma_connected_link_delivers(
    before: MixerState,
    after: MixerState,
    link_id: u16,
    device_id: u32,
    delivered: Option<(u32, Command)>,
    payload: Seq<u8>,
)
    requires
        after.connections == before.connections.insert(link_id, device_id),
        match delivered {
            Some((d, c)) => after.connections.contains_key(link_id) && d
                == after.connections[link_id] && is_link_recv(c, link_id, payload),
            None => !after.connections.contains_key(link_id),
        },
    ensures
        delivered matches Some((d, c)) && d == device_id && is_link_recv(c, link_id, payload),
{
}

} // verus!
