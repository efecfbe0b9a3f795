//! The wire protocol spoken between the simulator and an emulator instance.

pub mod bytes;
pub mod channel;
pub mod command;
pub mod command_id;
pub mod config_variable;
pub mod raw_header;
pub mod requests;

pub use self::channel::Channel;
pub use self::command::Command;
pub use self::command_id::CommandId;
pub use self::config_variable::ConfigVariable;
pub use self::raw_header::RawHeader;
pub use self::requests::{GetConfigWord, LinkTransmit};
