use vstd::prelude::*;

verus! {

/// The wire value that stands for the control channel.
pub const CONTROL_CHANNEL: u16 = 0xFFFF;

/// The channel a command travels on: the control channel, or the channel of
/// one link.
#[derive(Clone, Copy, Debug, PartialEq, Eq, Structural)]
pub enum Channel {
    Control,
    Other(u16),
}

/// The 16-bit wire value of a channel.
pub open spec fn channel_to_wire(c: Channel) -> u16 {
    match c {
        Channel::Control => CONTROL_CHANNEL,
        Channel::Other(v) => v,
    }
}

/// The channel that a 16-bit wire value denotes.
pub open spec fn channel_from_wire(v: u16) -> Channel {
    if v == CONTROL_CHANNEL {
        Channel::Control
    } else {
        Channel::Other(v)
    }
}

impl Channel {
    /// The link number of a link channel. The control channel has none.
    pub fn other(&self) -> (link: u16)
        requires
            self is Other,
        ensures
            *self == Channel::Other(link),
    {
        match self {
            Channel::Other(e) => *e,
            Channel::Control => 0,
        }
    }
}

impl From<Channel> for u16 {
    fn from(value: Channel) -> (r: u16) {
        match value {
            Channel::Control => CONTROL_CHANNEL,
            Channel::Other(v) => v,
        }
    }
}

impl vstd::std_specs::convert::FromSpecImpl<Channel> for u16 {
    open spec fn obeys_from_spec() -> bool {
        true
    }

    open spec fn from_spec(v: Channel) -> u16 {
        channel_to_wire(v)
    }
}

impl From<u16> for Channel {
    fn from(value: u16) -> (r: Channel) {
        if value == CONTROL_CHANNEL {
            Channel::Control
        } else {
            Channel::Other(value)
        }
    }
}

impl vstd::std_specs::convert::FromSpecImpl<u16> for Channel {
    open spec fn obeys_from_spec() -> bool {
        true
    }

    open spec fn from_spec(v: u16) -> Channel {
        channel_from_wire(v)
    }
}

/// Decoding the wire value of any channel number gives back that number.
pub proof fn lemma_channel_wire_roundtrip(v: u16)
    ensures
        channel_to_wire(channel_from_wire(v)) == v,
{
}

/// Encoding a channel and decoding the result gives back the channel, for
/// every channel but the link channel whose number is the control channel's
/// wire value.
pub proof fn lemma_channel_roundtrip(c: Channel)
    requires
        c != Channel::Other(CONTROL_CHANNEL),
    ensures
        channel_from_wire(channel_to_wire(c)) == c,
{
}

/// The control channel travels as all ones, a link channel as its link
/// number; every other wire value denotes the link of that number.
pub proof fn lemma_channel_wire_values(v: u16)
    ensures
        channel_to_wire(Channel::Control) == 0xFFFF,
        channel_to_wire(Channel::Other(v)) == v,
        channel_from_wire(0xFFFF) == Channel::Control,
        v != 0xFFFF ==> channel_from_wire(v) == Channel::Other(v),
{
}

} // verus!
