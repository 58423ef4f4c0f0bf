//! The error type shared by every fallible operation of this crate.

use vstd::prelude::*;

verus! {

/// The various errors that device queries and brightness changes can report.
#[derive(Debug, Clone)]
#[non_exhaustive]
pub enum Error {
    /// A brightness level above the device's reported maximum was requested;
    /// carries the requested level and that maximum.
    InvalidBrightnessLevel { given: u32, max: u32 },
    /// A device directory or attribute file could not be read; carries the
    /// name of the attribute file that was missing.
    Io { file: String },
    /// A brightness attribute file did not hold a valid non-negative
    /// integer; carries the offending text.
    ParseBrightnessError { content: String },
    /// The named device directory does not exist under the class root.
    InvalidDeviceName { device: String },
    /// A backlight `type` attribute held none of the known interface names;
    /// carries the text that was read.
    UnknownBacklightType { value: String },
    /// A system-bus brightness call failed; carries the bus error's text.
    SetBrightnessDBusError { message: String },
}

} // verus!
