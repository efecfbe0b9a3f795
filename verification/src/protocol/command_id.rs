use vstd::prelude::*;

verus! {

/// Wire value of a request for a configuration word.
pub const GET_CONFIG_WORD_ID: u16 = 0xaa00;

/// Wire value of a packet sent into a link.
pub const LINK_SEND_ID: u16 = 0xbb00;

/// Wire value of a packet received from a link.
pub const LINK_RECV_ID: u16 = 0xbb01;

/// Wire value of the request to stop.
pub const QUIT_ID: u16 = 0xFFFF;

/// What a command asks for.
#[derive(Clone, Copy, Debug, PartialEq, Eq, Structural)]
pub enum CommandId {
    GetConfigWord,
    LinkSend,
    LinkRecv,
    Quit,
    Unknown(u16),
}

/// The 16-bit wire value of a command identifier.
pub open spec fn command_id_to_wire(c: CommandId) -> u16 {
    match c {
        CommandId::GetConfigWord => GET_CONFIG_WORD_ID,
        CommandId::LinkSend => LINK_SEND_ID,
        CommandId::LinkRecv => LINK_RECV_ID,
        CommandId::Quit => QUIT_ID,
        CommandId::Unknown(other) => other,
    }
}

/// The command identifier that a 16-bit wire value denotes. The value of
/// `Quit` is not recognised on the way in: it reads as `Unknown`.
pub open spec fn command_id_from_wire(v: u16) -> CommandId {
    if v == GET_CONFIG_WORD_ID {
        CommandId::GetConfigWord
    } else if v == LINK_SEND_ID {
        CommandId::LinkSend
    } else if v == LINK_RECV_ID {
        CommandId::LinkRecv
    } else {
        CommandId::Unknown(v)
    }
}

impl From<CommandId> for u16 {
    fn from(value: CommandId) -> (r: u16) {
        match value {
            CommandId::GetConfigWord => GET_CONFIG_WORD_ID,
            CommandId::LinkSend => LINK_SEND_ID,
            CommandId::LinkRecv => LINK_RECV_ID,
            CommandId::Quit => QUIT_ID,
            CommandId::Unknown(other) => other,
        }
    }
}

impl vstd::std_specs::convert::FromSpecImpl<CommandId> for u16 {
    open spec fn obeys_from_spec() -> bool {
        true
    }

    open spec fn from_spec(v: CommandId) -> u16 {
        command_id_to_wire(v)
    }
}

impl From<u16> for CommandId {
    fn from(value: u16) -> (r: CommandId) {
        if value == GET_CONFIG_WORD_ID {
            CommandId::GetConfigWord
        } else if value == LINK_SEND_ID {
            CommandId::LinkSend
        } else if value == LINK_RECV_ID {
            CommandId::LinkRecv
        } else {
            CommandId::Unknown(value)
        }
    }
}

impl vstd::std_specs::convert::FromSpecImpl<u16> for CommandId {
    open spec fn obeys_from_spec() -> bool {
        true
    }

    open spec fn from_spec(v: u16) -> CommandId {
        command_id_from_wire(v)
    }
}

/// A command identifier that survives a trip over the wire unchanged: any
/// but `Quit`, and any `Unknown` whose value is not that of a known command.
pub open spec fn command_id_is_canonical(c: CommandId) -> bool {
    match c {
        CommandId::Quit => false,
        CommandId::Unknown(v) => v != GET_CONFIG_WORD_ID && v != LINK_SEND_ID && v
            != LINK_RECV_ID,
        _ => true,
    }
}

/// Decoding any wire value and encoding the identifier gives back the value.
pub proof fn lemma_command_id_wire_roundtrip(v: u16)
    ensures
        command_id_to_wire(command_id_from_wire(v)) == v,
{
}

/// Encoding an identifier and decoding the value gives back the identifier
/// exactly when the identifier is canonical.
pub proof fn lemma_command_id_roundtrip(c: CommandId)
    ensures
        command_id_from_wire(command_id_to_wire(c)) == c <==> command_id_is_canonical(c),
{
}

/// The wire values of the command identifiers: a word request is `0xaa00`,
/// a packet into a link `0xbb00`, a packet out of a link `0xbb01`, `Quit`
/// all ones, and an unknown identifier its own value; on the way in, the
/// three known values denote their commands and any other value is unknown.
pub proof fn lemma_command_id_wire_values(v: u16)
    ensures
        command_id_to_wire(CommandId::GetConfigWord) == 0xaa00,
        command_id_to_wire(CommandId::LinkSend) == 0xbb00,
        command_id_to_wire(CommandId::LinkRecv) == 0xbb01,
        command_id_to_wire(CommandId::Quit) == 0xFFFF,
        command_id_to_wire(CommandId::Unknown(v)) == v,
        command_id_from_wire(0xaa00) == CommandId::GetConfigWord,
        command_id_from_wire(0xbb00) == CommandId::LinkSend,
        command_id_from_wire(0xbb01) == CommandId::LinkRecv,
        v != 0xaa00 && v != 0xbb00 && v != 0xbb01 ==> command_id_from_wire(v) == CommandId::Unknown(
            v,
        ),
{
}

} // verus!
