//! Enumerating and controlling the brightness of backlight and LED class
//! devices.
//!
//! The operating system exposes each device family as a directory tree in
//! which every device is a directory of small attribute files.  This crate
//! keeps all of the decisions — parsing device names into structured
//! identity fields, reading and validating numeric attributes, filtering,
//! bounds-checking brightness requests — in verified code that works on an
//! in-memory picture of such a tree ([`sysfs::ClassDir`]).  A thin unverified
//! shell is expected to fill that picture from the real filesystem and to
//! carry out the [`sysfs::BrightnessCommand`] values produced here, either
//! by a direct file write or by a system-bus call.

pub mod error;
pub mod misc;
pub mod monitor;
pub mod sysfs;
pub mod text;
