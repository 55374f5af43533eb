//! Serial protocol of the drive base: command frames out, feedback frames in.

pub mod actuator;
pub mod poller;
pub mod sensors;
pub mod utilities;
