use vstd::prelude::*;

use crate::device::{config_word_value, initial_config, Device, DeviceState};
use crate::mixer::{Mixer, MixerState};
use crate::protocol::config_variable::{
    config_variable_from_word, ConfigVariable, ATTACHED_LINKS_COUNT_WORD, FIRST_ATTACHED_LINK_WORD,
};

verus! {

/// A simulation being set up: its devices, the link mixer, and the flash
/// image that every instance boots.
pub struct Simulation {
    devices: Vec<Device>,
    mixer: Mixer,
    flash_image: Option<String>,
}

/// What a simulation is, seen from outside.
pub struct SimulationState {
    pub devices: Seq<DeviceState>,
    pub mixer: MixerState,
    pub flash_image: Option<Seq<char>>,
}

impl SimulationState {
    /// Every device's identifier is its position among the devices.
    pub open spec fn wf(self) -> bool {
        forall|i: int| 0 <= i < self.devices.len() ==> #[trigger] self.devices[i].id == i as u32
    }
}

/// The number of links a device's configuration records as attached, cut
/// to a byte.
pub open spec fn attached_link_count(config: Map<ConfigVariable, u32>) -> u8 {
    (if config.contains_key(ConfigVariable::AttachedLinksCount) {
        config[ConfigVariable::AttachedLinksCount]
    } else {
        0
    }) as u8
}

/// The configuration of a device after link `link_id` was attached to it:
/// the link fills the next attached-link word and the count grows by one.
pub open spec fn config_after_attach(config: Map<ConfigVariable, u32>, link_id: u16) -> Map<
    ConfigVariable,
    u32,
> {
    let k = attached_link_count(config);
    config.insert(ConfigVariable::AttachedLink(k), link_id as u32).insert(
        ConfigVariable::AttachedLinksCount,
        (k + 1) as u32,
    )
}

impl View for Simulation {
    type V = SimulationState;

    closed spec fn view(&self) -> SimulationState {
        SimulationState {
            devices: self.devices@.map_values(|d: Device| d@),
            mixer: self.mixer@,
            flash_image: match self.flash_image {
                Some(s) => Some(s@),
                None => None,
            },
        }
    }
}

impl Simulation {
    /// Every device's identifier is its position among the devices.
    #[verifier::type_invariant]
    spec fn inv(&self) -> bool {
        forall|i: int| 0 <= i < self.devices@.len() ==> #[trigger] self.devices@[i]@.id == i as u32
    }

    /// An empty simulation: no device, no link, no flash image.
    pub fn new() -> (r: Simulation)
        ensures
            r@.devices == Seq::<DeviceState>::empty(),
            r@.mixer.connections == Map::<u16, u32>::empty(),
            r@.mixer.links == 0,
            r@.flash_image is None,
            r@.wf(),
    {
        let r = Simulation { devices: Vec::new(), mixer: Mixer::new(), flash_image: None };
        assert(r@.devices =~= Seq::<DeviceState>::empty());
        r
    }

    /// Makes a new link and returns its number.
    pub fn create_link(&mut self) -> (link_id: u16)
        requires
            old(self)@.mixer.links < u16::MAX,
        ensures
            link_id == old(self)@.mixer.links,
            final(self)@.mixer.links == old(self)@.mixer.links + 1,
            final(self)@.mixer.connections == old(self)@.mixer.connections,
            final(self)@.devices == old(self)@.devices,
            final(self)@.flash_image == old(self)@.flash_image,
    {
        proof {
            use_type_invariant(&*self);
        }
        let mut mixer = Mixer::new();
        std::mem::swap(&mut mixer, &mut self.mixer);
        let link_id = mixer.create_link();
        self.mixer = mixer;
        link_id
    }

    /// The number of links made so far.
    pub fn link_count(&self) -> (r: u16)
        ensures
            r == self@.mixer.links,
    {
        self.mixer.link_count()
    }

    /// Adds a device and returns its identifier: its position among the
    /// devices.
    pub fn create_device(&mut self) -> (device_id: u32)
        ensures
            device_id == old(self)@.devices.len() as u32,
            final(self)@.devices == old(self)@.devices.push(
                DeviceState { id: device_id, config: initial_config(device_id) },
            ),
            final(self)@.mixer == old(self)@.mixer,
            final(self)@.flash_image == old(self)@.flash_image,
            final(self)@.wf(),
    {
        proof {
            use_type_invariant(&*self);
        }
        let mut devices: Vec<Device> = Vec::new();
        std::mem::swap(&mut devices, &mut self.devices);
        let device_id = devices.len();
        let device = Device::new(device_id as u32);
        devices.push(device);
        assert(devices@.map_values(|d: Device| d@) =~= old(self)@.devices.push(
            DeviceState { id: device_id as u32, config: initial_config(device_id as u32) },
        ));
        self.devices = devices;
        device_id as u32
    }

    /// Sets word `word_id` of device `device_id` to `value`, when the word is
    /// one that users may set; tells whether it was.
    pub fn set_device_config_word(&mut self, device_id: u32, word_id: u32, value: u32) -> (r: bool)
        requires
            device_id < old(self)@.devices.len(),
        ensures
            r == (config_variable_from_word(word_id) is UserDefined),
            final(self)@.devices == (if r {
                old(self)@.devices.update(
                    device_id as int,
                    DeviceState {
                        id: device_id,
                        config: old(self)@.devices[device_id as int].config.insert(
                            config_variable_from_word(word_id),
                            value,
                        ),
                    },
                )
            } else {
                old(self)@.devices
            }),
            final(self)@.mixer == old(self)@.mixer,
            final(self)@.flash_image == old(self)@.flash_image,
            final(self)@.wf(),
    {
        proof {
            use_type_invariant(&*self);
        }
        let variable = ConfigVariable::from(word_id);
        if !variable.is_user_defined() {
            return false;
        }
        let mut devices: Vec<Device> = Vec::new();
        std::mem::swap(&mut devices, &mut self.devices);
        let device = &mut devices[device_id as usize];
        device.set_config_word(variable, value);
        assert(devices@.map_values(|d: Device| d@) =~= old(self)@.devices.update(
            device_id as int,
            DeviceState {
                id: device_id,
                config: old(self)@.devices[device_id as int].config.insert(variable, value),
            },
        ));
        self.devices = devices;
        true
    }

    /// Whether link outputs can still be connected to device `device_id`:
    /// the device exists and fewer than 255 links are attached to it.
    pub fn can_connect_link_output(&self, device_id: u32) -> (r: bool)
        ensures
            r == (device_id < self@.devices.len() && attached_link_count(
                self@.devices[device_id as int].config,
            ) < 255),
    {
        if device_id as usize >= self.devices.len() {
            return false;
        }
        let device = &self.devices[device_id as usize];
        let attached = match device.get_config_word(ConfigVariable::AttachedLinksCount) {
            Some(v) => v,
            None => 0,
        } as u8;
        attached < 255
    }

    /// Connects the output of link `link_id` to device `device_id`, and
    /// records the link in the device's next attached-link word.
    pub fn connect_link_output(&mut self, link_id: u16, device_id: u32)
        requires
            device_id < old(self)@.devices.len(),
            attached_link_count(old(self)@.devices[device_id as int].config) < 255,
        ensures
            final(self)@.mixer.connections == old(self)@.mixer.connections.insert(
                link_id,
                device_id,
            ),
            final(self)@.mixer.links == old(self)@.mixer.links,
            final(self)@.devices == old(self)@.devices.update(
                device_id as int,
                DeviceState {
                    id: device_id,
                    config: config_after_attach(
                        old(self)@.devices[device_id as int].config,
                        link_id,
                    ),
                },
            ),
            final(self)@.flash_image == old(self)@.flash_image,
            final(self)@.wf(),
    {
        proof {
            use_type_invariant(&*self);
        }
        let mut mixer = Mixer::new();
        std::mem::swap(&mut mixer, &mut self.mixer);
        mixer.connect_link_output(link_id, &self.devices[device_id as usize]);
        self.mixer = mixer;
        let mut devices: Vec<Device> = Vec::new();
        std::mem::swap(&mut devices, &mut self.devices);
        let device = &mut devices[device_id as usize];
        let attached_links = match device.get_config_word(ConfigVariable::AttachedLinksCount) {
            Some(v) => v,
            None => 0,
        } as u8;
        device.set_config_word(ConfigVariable::AttachedLink(attached_links), link_id as u32);
        device.set_config_word(ConfigVariable::AttachedLinksCount, (attached_links + 1) as u32);
        assert(devices@.map_values(|d: Device| d@) =~= old(self)@.devices.update(
            device_id as int,
            DeviceState {
                id: device_id,
                config: config_after_attach(old(self)@.devices[device_id as int].config, link_id),
            },
        ));
        self.devices = devices;
    }

    /// Sets the flash image that the instances boot.
    pub fn set_flash_image_path(&mut self, path: String)
        ensures
            final(self)@.flash_image == Some(path@),
            final(self)@.devices == old(self)@.devices,
            final(self)@.mixer == old(self)@.mixer,
    {
        proof {
            use_type_invariant(&*self);
        }
        self.flash_image = Some(path);
    }

    /// The number of devices.
    pub fn device_count(&self) -> (r: usize)
        ensures
            r == self@.devices.len(),
    {
        self.devices.len()
    }

    /// The devices, the mixer and the flash image, handed over to run the
    /// simulation.
    pub fn into_parts(self) -> (r: (Vec<Device>, Mixer, Option<String>))
        ensures
            r.0@.map_values(|d: Device| d@) == self@.devices,
            r.1@ == self@.mixer,
            (match r.2 {
                Some(s) => Some(s@),
                None => None,
            }) == self@.flash_image,
    {
        (self.devices, self.mixer, self.flash_image)
    }
}

impl Default for Simulation {
    fn default() -> (r: Simulation)
        ensures
            r@.devices == Seq::<DeviceState>::empty(),
            r@.mixer.connections == Map::<u16, u32>::empty(),
            r@.mixer.links == 0,
            r@.flash_image is None,
            r@.wf(),
    {
        Simulation::new()
    }
}

/// Attaching a link to a device that has fewer than fourteen links makes
/// the link readable under the device's next attached-link word, and the
/// count word reads one more than before.
pub proof fn lemma_attached_link_reads_back(config: Map<ConfigVariable, u32>, link_id: u16)
    requires
        attached_link_count(config) < 14,
    ensures
        config_word_value(
            config_after_attach(config, link_id),
            (FIRST_ATTACHED_LINK_WORD + attached_link_count(config)) as u32,
        ) == link_id as u32,
        config_word_value(config_after_attach(config, link_id), ATTACHED_LINKS_COUNT_WORD)
            == attached_link_count(config) + 1,
{
    let k = attached_link_count(config);
    let w = (FIRST_ATTACHED_LINK_WORD + k) as u32;
    assert(config_variable_from_word(w) == ConfigVariable::AttachedLink(k));
}

/// Setting a word through the simulation and then asking the device for it
/// reads the value back, for every word that users may set.
pub proof fn lemma_set_word_reads_back(
    before: SimulationState,
    after: SimulationState,
    device_id: u32,
    word_id: u32,
    value: u32,
)
    requires
        device_id < before.devices.len(),
        config_variable_from_word(word_id) is UserDefined,
        after.devices == before.devices.update(
            device_id as int,
            DeviceState {
                id: device_id,
                config: before.devices[device_id as int].config.insert(
                    config_variable_from_word(word_id),
                    value,
                ),
            },
        ),
    ensures
        config_word_value(after.devices[device_id as int].config, word_id) == value,
{
}

/// The attached-link count is the stored count word, or 0 when there is
/// none, cut to a byte.
pub proof fn lemma_attached_link_count(config: Map<ConfigVariable, u32>)
    ensures
        config.contains_key(ConfigVariable::AttachedLinksCount) ==> attached_link_count(config)
            == config[ConfigVariable::AttachedLinksCount] % 256,
        !config.contains_key(ConfigVariable::AttachedLinksCount) ==> attached_link_count(config)
            == 0,
{
    if config.contains_key(ConfigVariable::AttachedLinksCount) {
        let n = config[ConfigVariable::AttachedLinksCount];
        assert((n as u8) == n % 256) by (bit_vector);
    }
}

/// Attaching a link to a device that records `n < 255` attached links
/// stores the link under attached-link word `n`, makes the count word read
/// `n + 1`, and leaves every other word as it was, the earlier attached-link
/// words among them.
pub proof fn lemma_attach_link(config: Map<ConfigVariable, u32>, link_id: u16, n: u32)
    requires
        n == (if config.contains_key(ConfigVariable::AttachedLinksCount) {
            config[ConfigVariable::AttachedLinksCount]
        } else {
            0
        }),
        n < 255,
    ensures
        config_after_attach(config, link_id)[ConfigVariable::AttachedLinksCount] == n + 1,
        config_after_attach(config, link_id).contains_key(ConfigVariable::AttachedLink(n as u8)),
        config_after_attach(config, link_id)[ConfigVariable::AttachedLink(n as u8)] == link_id,
        forall|v: ConfigVariable|
            v != ConfigVariable::AttachedLinksCount && v != ConfigVariable::AttachedLink(n as u8)
                ==> (#[trigger] config_after_attach(config, link_id).contains_key(v)
                <==> config.contains_key(v)) && (config.contains_key(v) ==> config_after_attach(
                config,
                link_id,
            )[v] == config[v]),
{
    lemma_attached_link_count(config);
}

} // verus!
