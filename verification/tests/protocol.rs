use physim::protocol::{
    Channel, Command, CommandId, ConfigVariable, GetConfigWord, LinkTransmit, RawHeader,
};

#[test]
fn channel_other_gives_link_number() {
    assert_eq!(Channel::Other(7).other(), 7);
}

#[test]
fn channel_wire_values() {
    assert_eq!(u16::from(Channel::Control), 0xFFFF);
    assert_eq!(u16::from(Channel::Other(3)), 3);
    assert_eq!(Channel::from(0xFFFFu16), Channel::Control);
    assert_eq!(Channel::from(0u16), Channel::Other(0));
    assert_eq!(Channel::from(0xFFFEu16), Channel::Other(0xFFFE));
}

#[test]
fn channel_roundtrips() {
    for v in [0u16, 1, 2, 0x1234, 0xFFFE, 0xFFFF] {
        assert_eq!(u16::from(Channel::from(v)), v);
    }
    for c in [Channel::Control, Channel::Other(0), Channel::Other(0xFFFE)] {
        assert_eq!(Channel::from(u16::from(c)), c);
    }
    // The one channel that does not survive the wire.
    assert_eq!(Channel::from(u16::from(Channel::Other(0xFFFF))), Channel::Control);
}

#[test]
fn command_id_wire_values() {
    assert_eq!(u16::from(CommandId::GetConfigWord), 0xaa00);
    assert_eq!(u16::from(CommandId::LinkSend), 0xbb00);
    assert_eq!(u16::from(CommandId::LinkRecv), 0xbb01);
    assert_eq!(u16::from(CommandId::Quit), 0xFFFF);
    assert_eq!(u16::from(CommandId::Unknown(0x1234)), 0x1234);
    assert_eq!(CommandId::from(0xaa00u16), CommandId::GetConfigWord);
    assert_eq!(CommandId::from(0xbb00u16), CommandId::LinkSend);
    assert_eq!(CommandId::from(0xbb01u16), CommandId::LinkRecv);
    assert_eq!(CommandId::from(0xFFFFu16), CommandId::Unknown(0xFFFF));
    assert_eq!(CommandId::from(0u16), CommandId::Unknown(0));
}

#[test]
fn command_id_roundtrips() {
    for v in [0u16, 0xaa00, 0xbb00, 0xbb01, 0xbb02, 0xFFFF] {
        assert_eq!(u16::from(CommandId::from(v)), v);
    }
    for c in [
        CommandId::GetConfigWord,
        CommandId::LinkSend,
        CommandId::LinkRecv,
        CommandId::Unknown(5),
    ] {
        assert_eq!(CommandId::from(u16::from(c)), c);
    }
    assert_eq!(CommandId::from(u16::from(CommandId::Quit)), CommandId::Unknown(0xFFFF));
    assert_eq!(
        CommandId::from(u16::from(CommandId::Unknown(0xaa00))),
        CommandId::GetConfigWord
    );
}

#[test]
fn config_variable_from_word_ids() {
    assert_eq!(ConfigVariable::from(0u32), ConfigVariable::UserDefined(0));
    assert_eq!(ConfigVariable::from(0xFFFF_FEFFu32), ConfigVariable::UserDefined(0xFFFF_FEFF));
    assert_eq!(ConfigVariable::from(0xFFFF_FF00u32), ConfigVariable::DeviceId);
    assert_eq!(ConfigVariable::from(0xFFFF_FF01u32), ConfigVariable::AttachedLinksCount);
    assert_eq!(ConfigVariable::from(0xFFFF_FF02u32), ConfigVariable::AttachedLink(0));
    assert_eq!(ConfigVariable::from(0xFFFF_FF0Fu32), ConfigVariable::AttachedLink(13));
    assert_eq!(ConfigVariable::from(0xFFFF_FF10u32), ConfigVariable::Reserved);
    assert_eq!(ConfigVariable::from(0xFFFF_FFFEu32), ConfigVariable::Reserved);
    assert_eq!(ConfigVariable::from(0xFFFF_FFFFu32), ConfigVariable::Magic);
}

#[test]
fn user_defined_words_are_those_below_device_id() {
    for w in [0u32, 1, 0x1000, 0xFFFF_FEFF] {
        assert!(ConfigVariable::from(w).is_user_defined());
    }
    for w in [0xFFFF_FF00u32, 0xFFFF_FF01, 0xFFFF_FF08, 0xFFFF_FF20, 0xFFFF_FFFF] {
        assert!(!ConfigVariable::from(w).is_user_defined());
    }
}

#[test]
fn raw_header_from_bytes_is_little_endian() {
    let h = RawHeader::from([1u8, 2, 3, 4, 5, 6, 7, 8]);
    assert_eq!(h.command, 0x0201);
    assert_eq!(h.channel, 0x0403);
    assert_eq!(h.payload_size, 0x0807_0605);
}

#[test]
fn raw_header_to_bytes_is_little_endian() {
    let h = RawHeader { command: 0xaa00, channel: 0xFFFF, payload_size: 0x0102_0304 };
    assert_eq!(h.to_bytes(), [0x00, 0xaa, 0xff, 0xff, 0x04, 0x03, 0x02, 0x01]);
}

#[test]
fn raw_header_roundtrips() {
    let h = RawHeader { command: 0xbb01, channel: 0x0007, payload_size: 0xdead_beef };
    assert_eq!(RawHeader::from(h.to_bytes()), h);
    let b = [0xffu8, 0x00, 0x80, 0x7f, 0x01, 0xfe, 0x00, 0xff];
    assert_eq!(RawHeader::from(b).to_bytes(), b);
}

#[test]
fn encode_header_of_command() {
    let c = Command { command_id: CommandId::LinkSend, channel: Channel::Other(2), payload: vec![9; 5] };
    assert_eq!(c.encode_header(), [0x00, 0xbb, 0x02, 0x00, 0x05, 0x00, 0x00, 0x00]);
    let q = Command { command_id: CommandId::Quit, channel: Channel::Control, payload: vec![] };
    assert_eq!(q.encode_header(), [0xff, 0xff, 0xff, 0xff, 0, 0, 0, 0]);
}

#[test]
fn command_frame_roundtrips() {
    let c = Command {
        command_id: CommandId::GetConfigWord,
        channel: Channel::Control,
        payload: vec![1, 2, 3, 4],
    };
    let h = RawHeader::from(c.encode_header());
    let d = Command::from_raw(h, c.payload.clone());
    assert_eq!(d.command_id, c.command_id);
    assert_eq!(d.channel, c.channel);
    assert_eq!(d.payload, c.payload);
}

#[test]
fn from_raw_decodes_fields() {
    let h = RawHeader { command: 0xbb00, channel: 3, payload_size: 2 };
    let c = Command::from_raw(h, vec![7, 8]);
    assert_eq!(c.command_id, CommandId::LinkSend);
    assert_eq!(c.channel, Channel::Other(3));
    assert_eq!(c.payload, vec![7, 8]);
}

#[test]
fn get_config_word_request_reads_little_endian_word() {
    let c = Command {
        command_id: CommandId::GetConfigWord,
        channel: Channel::Control,
        payload: vec![0x01, 0xff, 0xff, 0xff],
    };
    assert_eq!(GetConfigWord::from(c).word_id, 0xFFFF_FF01);
}

#[test]
fn link_transmit_takes_channel_and_payload() {
    let c = Command { command_id: CommandId::LinkSend, channel: Channel::Other(4), payload: vec![1, 2, 3] };
    let t = LinkTransmit::from(c);
    assert_eq!(t.link_id, 4);
    assert_eq!(t.payload, vec![1, 2, 3]);
}
