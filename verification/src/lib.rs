//! Protocol core of a two-board differential-drive robot controller.
//!
//! The crate holds the byte-level logic of the controller, free of any
//! hardware access: the serial command and feedback protocol of the drive
//! base, the packet protocol of the block-detection camera, and the
//! attribute table and write dispatch of the Bluetooth Low Energy service.
//! The functions are verified against contracts over mathematical models
//! of the bytes they read or produce. The two calls into the Bluetooth
//! stack are trusted; each says so where it stands.

pub mod behavior;
pub mod ble_channel;
pub mod ble_service;
pub mod kobuki;
pub mod lcd_display;
pub mod odometry;
pub mod pixy2;
pub mod wire;
