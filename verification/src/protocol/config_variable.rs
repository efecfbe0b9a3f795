use vstd::prelude::*;

verus! {

/// First word identifier that is not free for users.
pub const DEVICE_ID_WORD: u32 = 0xFFFF_FF00;

/// Word identifier of the number of links attached to a device.
pub const ATTACHED_LINKS_COUNT_WORD: u32 = 0xFFFF_FF01;

/// Word identifier of the first attached link.
pub const FIRST_ATTACHED_LINK_WORD: u32 = 0xFFFF_FF02;

/// Word identifier of the last attached link.
pub const LAST_ATTACHED_LINK_WORD: u32 = 0xFFFF_FF0F;

/// Word identifier of the first reserved word.
pub const FIRST_RESERVED_WORD: u32 = 0xFFFF_FF10;

/// Word identifier of the magic word.
pub const MAGIC_WORD: u32 = 0xFFFF_FFFF;

/// A configuration word of a device.
#[derive(Clone, Copy, Debug, PartialEq, Eq, Hash, Structural)]
pub enum ConfigVariable {
    UserDefined(u32),
    DeviceId,
    AttachedLinksCount,
    AttachedLink(u8),
    Reserved,
    Magic,
}

/// The configuration word that a 32-bit word identifier selects.
pub open spec fn config_variable_from_word(value: u32) -> ConfigVariable {
    if value == DEVICE_ID_WORD {
        ConfigVariable::DeviceId
    } else if value == ATTACHED_LINKS_COUNT_WORD {
        ConfigVariable::AttachedLinksCount
    } else if FIRST_ATTACHED_LINK_WORD <= value <= LAST_ATTACHED_LINK_WORD {
        ConfigVariable::AttachedLink((value - FIRST_ATTACHED_LINK_WORD) as u8)
    } else if FIRST_RESERVED_WORD <= value < MAGIC_WORD {
        ConfigVariable::Reserved
    } else if value == MAGIC_WORD {
        ConfigVariable::Magic
    } else {
        ConfigVariable::UserDefined(value)
    }
}

impl ConfigVariable {
    /// Whether this word is one that users may set.
    pub fn is_user_defined(&self) -> (r: bool)
        ensures
            r == (*self is UserDefined),
    {
        match self {
            ConfigVariable::UserDefined(_) => true,
            _ => false,
        }
    }
}

impl From<u32> for ConfigVariable {
    fn from(value: u32) -> (r: ConfigVariable) {
        if value == DEVICE_ID_WORD {
            ConfigVariable::DeviceId
        } else if value == ATTACHED_LINKS_COUNT_WORD {
            ConfigVariable::AttachedLinksCount
        } else if FIRST_ATTACHED_LINK_WORD <= value && value <= LAST_ATTACHED_LINK_WORD {
            ConfigVariable::AttachedLink((value - FIRST_ATTACHED_LINK_WORD) as u8)
        } else if FIRST_RESERVED_WORD <= value && value < MAGIC_WORD {
            ConfigVariable::Reserved
        } else if value == MAGIC_WORD {
            ConfigVariable::Magic
        } else {
            ConfigVariable::UserDefined(value)
        }
    }
}

impl vstd::std_specs::convert::FromSpecImpl<u32> for ConfigVariable {
    open spec fn obeys_from_spec() -> bool {
        true
    }

    open spec fn from_spec(v: u32) -> ConfigVariable {
        config_variable_from_word(v)
    }
}

/// A word identifier selects a user-defined word exactly when it lies below
/// the first identifier of the device's own words, and then it selects the
/// word of that very number.
pub proof fn lemma_user_defined_words(value: u32)
    ensures
        (config_variable_from_word(value) is UserDefined) <==> value < DEVICE_ID_WORD,
        value < DEVICE_ID_WORD ==> config_variable_from_word(value) == ConfigVariable::UserDefined(
            value,
        ),
{
}

/// The attached-link words name links `0` to `13` in order, and no word
/// identifier names a later one.
pub proof fn lemma_attached_link_words(value: u32)
    ensures
        config_variable_from_word(value) is AttachedLink <==> FIRST_ATTACHED_LINK_WORD <= value
            <= LAST_ATTACHED_LINK_WORD,
        config_variable_from_word(value) matches ConfigVariable::AttachedLink(n) ==> n <= 13
            && value == FIRST_ATTACHED_LINK_WORD + n,
{
}

/// The table of word identifiers: `0xFFFF_FF00` is the device identifier,
/// `0xFFFF_FF01` the attached-link count, `0xFFFF_FF02` to `0xFFFF_FF0F` the
/// attached links in order, `0xFFFF_FF10` to `0xFFFF_FFFE` reserved, all ones
/// the magic word, and every lower identifier the user word of that number.
pub proof fn lemma_config_word_table(value: u32)
    ensures
        config_variable_from_word(0xFFFF_FF00) == ConfigVariable::DeviceId,
        config_variable_from_word(0xFFFF_FF01) == ConfigVariable::AttachedLinksCount,
        0xFFFF_FF02 <= value <= 0xFFFF_FF0F ==> config_variable_from_word(value)
            == ConfigVariable::AttachedLink((value - 0xFFFF_FF02) as u8),
        0xFFFF_FF10 <= value <= 0xFFFF_FFFE ==> config_variable_from_word(value)
            == ConfigVariable::Reserved,
        config_variable_from_word(0xFFFF_FFFF) == ConfigVariable::Magic,
        value < 0xFFFF_FF00 ==> config_variable_from_word(value) == ConfigVariable::UserDefined(
            value,
        ),
{
}

} // verus!
