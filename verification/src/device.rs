use std::collections::HashMap;

use vstd::prelude::*;

use crate::protocol::bytes::{
    le_u32_of, lemma_u32_value_roundtrip, u32_from_le_bytes, u32_le_bytes, u32_to_le_bytes,
};
use crate::protocol::channel::Channel;
use crate::protocol::command::Command;
use crate::protocol::command_id::CommandId;
use crate::protocol::config_variable::{config_variable_from_word, ConfigVariable};
use crate::protocol::requests::{GetConfigWord, LinkTransmit};

verus! {

broadcast use vstd::std_specs::hash::group_hash_axioms;

/// The value of the magic configuration word of every device.
pub const PHYSIM_MAGIC: u32 = 0x5048_5953;

/// What a configuration word reads as when the device does not hold it.
pub const MISSING_WORD_VALUE: u32 = 0xFFFF_FFFF;

/// A simulated device: its identifier and the configuration words it holds.
pub struct Device {
    id: u32,
    variables: HashMap<u64, u32>,
}

/// What a device is, seen from outside: its identifier and its configuration
/// words.
pub struct DeviceState {
    pub id: u32,
    pub config: Map<ConfigVariable, u32>,
}

/// The number under which a device stores a configuration word. Distinct
/// words get distinct numbers.
pub open spec fn config_key(v: ConfigVariable) -> u64 {
    match v {
        ConfigVariable::UserDefined(x) => x as u64,
        ConfigVariable::DeviceId => 0x1_0000_0000,
        ConfigVariable::AttachedLinksCount => 0x2_0000_0000,
        ConfigVariable::AttachedLink(n) => (0x3_0000_0000 + n) as u64,
        ConfigVariable::Reserved => 0x4_0000_0000,
        ConfigVariable::Magic => 0x5_0000_0000,
    }
}

fn key_of(v: ConfigVariable) -> (k: u64)
    ensures
        k == config_key(v),
{
    match v {
        ConfigVariable::UserDefined(x) => x as u64,
        ConfigVariable::DeviceId => 0x1_0000_0000,
        ConfigVariable::AttachedLinksCount => 0x2_0000_0000,
        ConfigVariable::AttachedLink(n) => 0x3_0000_0000 + n as u64,
        ConfigVariable::Reserved => 0x4_0000_0000,
        ConfigVariable::Magic => 0x5_0000_0000,
    }
}

/// The configuration words of a freshly made device with identifier `id`:
/// the magic word and its identifier.
pub open spec fn initial_config(id: u32) -> Map<ConfigVariable, u32> {
    map![ConfigVariable::Magic => PHYSIM_MAGIC, ConfigVariable::DeviceId => id]
}

/// The value that a request for word `word_id` reads from a device with
/// configuration `config`.
pub open spec fn config_word_value(config: Map<ConfigVariable, u32>, word_id: u32) -> u32 {
    let v = config_variable_from_word(word_id);
    if config.contains_key(v) {
        config[v]
    } else {
        MISSING_WORD_VALUE
    }
}

/// Whether `c` is the reply that carries configuration value `value`.
pub open spec fn is_config_word_reply(c: Command, value: u32) -> bool {
    &&& c.command_id == CommandId::GetConfigWord
    &&& c.channel == Channel::Control
    &&& c.payload@ == u32_le_bytes(value)
}

/// Whether `c` is the command that hands packet `payload` of link `link_id`
/// to an instance.
pub open spec fn is_link_recv(c: Command, link_id: u16, payload: Seq<u8>) -> bool {
    &&& c.command_id == CommandId::LinkRecv
    &&& c.channel == Channel::Other(link_id)
    &&& c.payload@ == payload
}

/// The commands a device knows how to handle: a word request with a
/// four-byte payload, a link command on a link channel, and `Quit`.
pub open spec fn command_is_handled(c: Command) -> bool {
    match c.command_id {
        CommandId::GetConfigWord => c.payload.len() == 4,
        CommandId::LinkSend => c.channel is Other,
        CommandId::LinkRecv => c.channel is Other,
        CommandId::Quit => true,
        CommandId::Unknown(_) => false,
    }
}

/// What a device does about a command it received.
pub enum DeviceAction {
    /// Write this command back to the device's instance.
    Reply(Command),
    /// Hand this packet to the link mixer.
    Forward(LinkTransmit),
    /// Stop serving the device.
    Stop,
}

impl View for Device {
    type V = DeviceState;

    closed spec fn view(&self) -> DeviceState {
        DeviceState {
            id: self.id,
            config: Map::new(
                |v: ConfigVariable| self.variables@.contains_key(config_key(v)),
                |v: ConfigVariable| self.variables@[config_key(v)],
            ),
        }
    }
}

impl Device {
    /// A device with identifier `device_id` that holds the magic word and
    /// its identifier.
    pub fn new(device_id: u32) -> (r: Device)
        ensures
            r@.id == device_id,
            r@.config == initial_config(device_id),
    {
        let mut variables: HashMap<u64, u32> = HashMap::new();
        variables.insert(key_of(ConfigVariable::Magic), PHYSIM_MAGIC);
        variables.insert(key_of(ConfigVariable::DeviceId), device_id);
        let r = Device { id: device_id, variables };
        assert(r@.config =~= initial_config(device_id));
        r
    }

    /// The device's identifier.
    pub fn get_id(&self) -> (r: u32)
        ensures
            r == self@.id,
    {
        self.id
    }

    /// The value of configuration word `variable`, if the device holds it.
    pub fn get_config_word(&self, variable: ConfigVariable) -> (r: Option<u32>)
        ensures
            r == (if self@.config.contains_key(variable) {
                Some(self@.config[variable])
            } else {
                None
            }),
    {
        match self.variables.get(&key_of(variable)) {
            Some(v) => Some(*v),
            None => None,
        }
    }

    /// Sets configuration word `variable` to `value`.
    pub fn set_config_word(&mut self, variable: ConfigVariable, value: u32)
        ensures
            final(self)@.id == old(self)@.id,
            final(self)@.config == old(self)@.config.insert(variable, value),
    {
        self.variables.insert(key_of(variable), value);
        assert(self@.config =~= old(self)@.config.insert(variable, value));
    }

    /// Whether a device can handle command `cmd`.
    pub fn can_handle(cmd: &Command) -> (r: bool)
        ensures
            r == command_is_handled(*cmd),
    {
        match cmd.command_id {
            CommandId::GetConfigWord => cmd.payload.len() == 4,
            CommandId::LinkSend | CommandId::LinkRecv => match cmd.channel {
                Channel::Other(_) => true,
                Channel::Control => false,
            },
            CommandId::Quit => true,
            CommandId::Unknown(_) => false,
        }
    }

    /// What the device does about command `cmd` from its instance or from a
    /// link: answer a word request, forward a packet sent into a link, hand
    /// a packet received from a link to its instance, or stop on `Quit`.
    pub fn handle_command(&self, cmd: Command) -> (r: DeviceAction)
        requires
            command_is_handled(cmd),
        ensures
            match cmd.command_id {
                CommandId::GetConfigWord => r matches DeviceAction::Reply(c) && is_config_word_reply(
                    c,
                    config_word_value(self@.config, le_u32_of(cmd.payload@)),
                ),
                CommandId::LinkSend => r matches DeviceAction::Forward(t) && cmd.channel
                    == Channel::Other(t.link_id) && t.payload@ == cmd.payload@,
                CommandId::LinkRecv => r matches DeviceAction::Reply(c) && is_link_recv(
                    c,
                    cmd.channel->Other_0,
                    cmd.payload@,
                ),
                _ => r is Stop,
            },
            cmd.command_id == CommandId::LinkRecv ==> (r matches DeviceAction::Reply(c)
                && c.command_id == CommandId::LinkRecv && c.channel == cmd.channel && c.payload@
                == cmd.payload@),
            cmd.command_id == CommandId::GetConfigWord ==> (r matches DeviceAction::Reply(c)
                && c.command_id == CommandId::GetConfigWord && c.channel == Channel::Control
                && c.payload@.len() == 4),
    {
        match cmd.command_id {
            CommandId::GetConfigWord => DeviceAction::Reply(
                self.do_get_config_word(GetConfigWord::from(cmd)),
            ),
            CommandId::LinkSend => DeviceAction::Forward(LinkTransmit::from(cmd)),
            CommandId::LinkRecv => DeviceAction::Reply(Self::do_link_recv(LinkTransmit::from(cmd))),
            _ => DeviceAction::Stop,
        }
    }

    /// For a request for a configuration word, the requested word
    /// identifier and whether the device holds that word; nothing for any
    /// other command.
    pub fn requested_word(&self, cmd: &Command) -> (r: Option<(u32, bool)>)
        ensures
            r == (if cmd.command_id == CommandId::GetConfigWord && cmd.payload.len() == 4 {
                Some(
                    (
                        le_u32_of(cmd.payload@),
                        self@.config.contains_key(
                            config_variable_from_word(le_u32_of(cmd.payload@)),
                        ),
                    ),
                )
            } else {
                None
            }),
    {
        if cmd.command_id != CommandId::GetConfigWord || cmd.payload.len() != 4 {
            return None;
        }
        let p = &cmd.payload;
        let word_id = u32_from_le_bytes(p[0], p[1], p[2], p[3]);
        let held = match self.get_config_word(ConfigVariable::from(word_id)) {
            Some(_) => true,
            None => false,
        };
        Some((word_id, held))
    }

    /// The answer to a request for a configuration word: the word's value,
    /// or all ones when the device does not hold it, on the control channel.
    pub fn do_get_config_word(&self, req: GetConfigWord) -> (r: Command)
        ensures
            is_config_word_reply(r, config_word_value(self@.config, req.word_id)),
            r.command_id == CommandId::GetConfigWord,
            r.channel == Channel::Control,
            r.payload@.len() == 4,
            !self@.config.contains_key(config_variable_from_word(req.word_id)) ==> r.payload@ == seq![
                0xffu8,
                0xff,
                0xff,
                0xff,
            ],
            self@.config.contains_key(config_variable_from_word(req.word_id)) ==> r.payload@[0]
                + 256 * r.payload@[1] + 65536 * r.payload@[2] + 16777216 * r.payload@[3]
                == self@.config[config_variable_from_word(req.word_id)],
    {
        let value = match self.get_config_word(ConfigVariable::from(req.word_id)) {
            Some(value) => value,
            None => MISSING_WORD_VALUE,
        };
        let r = Command {
            command_id: CommandId::GetConfigWord,
            channel: Channel::Control,
            payload: u32_to_le_bytes(value),
        };
        proof {
            lemma_u32_value_roundtrip(value);
            assert(u32_le_bytes(0xFFFF_FFFF) =~= seq![0xffu8, 0xff, 0xff, 0xff]);
        }
        r
    }

    /// The command that hands a packet received from a link to the
    /// device's instance.
    pub fn do_link_recv(req: LinkTransmit) -> (r: Command)
        ensures
            is_link_recv(r, req.link_id, req.payload@),
            r.command_id == CommandId::LinkRecv,
            r.channel == Channel::Other(req.link_id),
            r.payload@ == req.payload@,
    {
        Command {
            command_id: CommandId::LinkRecv,
            channel: Channel::Other(req.link_id),
            payload: req.payload,
        }
    }
}

/// A value written to a configuration word is what a later request for that
/// word reads, whatever the word.
pub proof fn lemma_read_after_write(
    before: DeviceState,
    after: DeviceState,
    word_id: u32,
    value: u32,
)
    requires
        after.config == before.config.insert(config_variable_from_word(word_id), value),
    ensures
        config_word_value(after.config, word_id) == value,
{
}

/// A fresh device answers a request for the magic word with the magic value
/// and a request for its identifier word with its identifier, and holds no
/// user-defined word.
pub proof fn lemma_fresh_device_words(id: u32, word_id: u32)
    ensures
        config_word_value(initial_config(id), 0xFFFF_FFFF) == PHYSIM_MAGIC,
        config_word_value(initial_config(id), 0xFFFF_FF00) == id,
        word_id < 0xFFFF_FF00 ==> config_word_value(initial_config(id), word_id)
            == MISSING_WORD_VALUE,
{
}

/// A packet that a link delivers to a device is a command the device
/// handles, and the device hands it on to its instance unchanged.
pub proof fn lemma_delivered_packet_is_handled(c: Command, link_id: u16, payload: Seq<u8>)
    requires
        is_link_recv(c, link_id, payload),
    ensures
        command_is_handled(c),
        c.command_id == CommandId::LinkRecv,
        c.channel->Other_0 == link_id,
{
}

/// A word request reads the value of the word when the device holds it, and
/// all ones when it does not, whatever else the device holds.
pub proof fn lemma_config_word_value(config: Map<ConfigVariable, u32>, word_id: u32)
    ensures
        config.contains_key(config_variable_from_word(word_id)) ==> config_word_value(
            config,
            word_id,
        ) == config[config_variable_from_word(word_id)],
        !config.contains_key(config_variable_from_word(word_id)) ==> config_word_value(
            config,
            word_id,
        ) == 0xFFFF_FFFF,
{
}

/// The reply to a word request is a `GetConfigWord` command on the control
/// channel whose four payload bytes hold the value, little end first.
pub proof fn lemma_config_word_reply(c: Command, value: u32)
    requires
        is_config_word_reply(c, value),
    ensures
        c.command_id == CommandId::GetConfigWord,
        c.channel == Channel::Control,
        c.payload@.len() == 4,
        c.payload@[0] + 256 * c.payload@[1] + 65536 * c.payload@[2] + 16777216 * c.payload@[3]
            == value,
{
    lemma_u32_value_roundtrip(value);
}

/// A packet handed from a link to an instance is a `LinkRecv` command on
/// that link's channel that carries exactly the packet.
pub proof fn lemma_link_recv(c: Command, link_id: u16, payload: Seq<u8>)
    requires
        is_link_recv(c, link_id, payload),
    ensures
        c.command_id == CommandId::LinkRecv,
        c.channel == Channel::Other(link_id),
        c.payload@ == payload,
{
}

/// The commands a device handles are exactly: a word request with a
/// four-byte payload, a packet into or out of a link on any link channel,
/// and `Quit`.
pub proof fn lemma_handled_commands(c: Command)
    ensures
        command_is_handled(c) <==> (c.command_id == CommandId::GetConfigWord && c.payload.len()
            == 4) || ((c.command_id == CommandId::LinkSend || c.command_id == CommandId::LinkRecv)
            && c.channel != Channel::Control) || c.command_id == CommandId::Quit,
{
}

} // verus!
