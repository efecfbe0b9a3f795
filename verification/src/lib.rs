//! Logic of a simulator for networked devices that run inside emulator
//! instances: the wire protocol spoken with each instance, the per-device
//! configuration words, the link mixer that routes packets between devices,
//! the simulation set-up, and the retention of device logs.

pub mod protocol;
pub mod device;
pub mod mixer;
pub mod simulation;
pub mod logs;
pub mod api;
