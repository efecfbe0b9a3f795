use physim::mixer::Mixer;
use physim::protocol::{Channel, CommandId, ConfigVariable, LinkTransmit};
use physim::simulation::Simulation;

#[test]
fn devices_are_numbered_in_order() {
    let mut s = Simulation::default();
    assert_eq!(s.device_count(), 0);
    assert_eq!(s.create_device(), 0);
    assert_eq!(s.create_device(), 1);
    assert_eq!(s.create_device(), 2);
    assert_eq!(s.device_count(), 3);
    let (devices, _, _) = s.into_parts();
    for (i, d) in devices.iter().enumerate() {
        assert_eq!(d.get_id() as usize, i);
        assert_eq!(d.get_config_word(ConfigVariable::DeviceId), Some(i as u32));
    }
}

#[test]
fn links_are_numbered_in_order() {
    let mut s = Simulation::new();
    assert_eq!(s.link_count(), 0);
    assert_eq!(s.create_link(), 0);
    assert_eq!(s.create_link(), 1);
    assert_eq!(s.link_count(), 2);
}

#[test]
fn user_words_can_be_set() {
    let mut s = Simulation::new();
    s.create_device();
    s.create_device();
    assert!(s.set_device_config_word(1, 0x10, 0xabcd));
    let (devices, _, _) = s.into_parts();
    assert_eq!(devices[1].get_config_word(ConfigVariable::UserDefined(0x10)), Some(0xabcd));
    assert_eq!(devices[0].get_config_word(ConfigVariable::UserDefined(0x10)), None);
}

#[test]
fn device_words_are_refused() {
    let mut s = Simulation::new();
    s.create_device();
    assert!(!s.set_device_config_word(0, 0xFFFF_FF00, 9));
    assert!(!s.set_device_config_word(0, 0xFFFF_FFFF, 9));
    assert!(!s.set_device_config_word(0, 0xFFFF_FF02, 9));
    let (devices, _, _) = s.into_parts();
    assert_eq!(devices[0].get_config_word(ConfigVariable::DeviceId), Some(0));
    assert_eq!(devices[0].get_config_word(ConfigVariable::AttachedLink(0)), None);
}

#[test]
fn connecting_links_records_them_on_the_device() {
    let mut s = Simulation::new();
    s.create_device();
    s.create_device();
    let l0 = s.create_link();
    let l1 = s.create_link();
    assert!(s.can_connect_link_output(1));
    s.connect_link_output(l0, 1);
    s.connect_link_output(l1, 1);
    let (devices, mixer, _) = s.into_parts();
    let d = &devices[1];
    assert_eq!(d.get_config_word(ConfigVariable::AttachedLinksCount), Some(2));
    assert_eq!(d.get_config_word(ConfigVariable::AttachedLink(0)), Some(l0 as u32));
    assert_eq!(d.get_config_word(ConfigVariable::AttachedLink(1)), Some(l1 as u32));
    assert_eq!(devices[0].get_config_word(ConfigVariable::AttachedLinksCount), None);
    let (target, cmd) = mixer.link_send(LinkTransmit { link_id: l1, payload: vec![4] }).unwrap();
    assert_eq!(target, 1);
    assert_eq!(cmd.command_id, CommandId::LinkRecv);
    assert_eq!(cmd.channel, Channel::Other(l1));
    assert_eq!(cmd.payload, vec![4]);
}

#[test]
fn cannot_connect_to_missing_device() {
    let mut s = Simulation::new();
    s.create_device();
    assert!(!s.can_connect_link_output(1));
    assert!(s.can_connect_link_output(0));
}

#[test]
fn flash_image_path_is_kept() {
    let mut s = Simulation::new();
    let (_, _, none) = Simulation::new().into_parts();
    assert!(none.is_none());
    s.set_flash_image_path(String::from("/tmp/image.bin"));
    let (_, _, path) = s.into_parts();
    assert_eq!(path.as_deref(), Some("/tmp/image.bin"));
}

#[test]
fn mixer_drops_packets_of_unconnected_links() {
    let mut m = Mixer::new();
    let l = m.create_link();
    assert!(m.link_send(LinkTransmit { link_id: l, payload: vec![1] }).is_none());
    assert_eq!(m.link_count(), 1);
}

#[test]
fn mixer_reconnection_replaces_target() {
    let mut s = Simulation::new();
    s.create_device();
    s.create_device();
    let l = s.create_link();
    s.connect_link_output(l, 0);
    s.connect_link_output(l, 1);
    let (_, mixer, _) = s.into_parts();
    let (target, _) = mixer.link_send(LinkTransmit { link_id: l, payload: vec![] }).unwrap();
    assert_eq!(target, 1);
}
