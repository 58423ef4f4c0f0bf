//! An in-memory picture of a device-class directory tree, the attribute
//! accessor that reads from it, and the command value that describes a
//! brightness change for an unverified backend to carry out.
//!
//! The operating system exposes each device class as a directory of device
//! directories, each holding small attribute files.  [`ClassDir`] holds that
//! tree as plain values: the shell around this library fills one in from the
//! real filesystem and every decision about its contents is made here, in
//! verified code.

use vstd::prelude::*;
use vstd::string::StringExecFns;

use crate::error::Error;
use crate::text::{dec_seq, dec_string, str_eq, trim_spec, trim_str};

verus! {

/// Selector for the fixed set of attribute files under a device directory.
///
/// The same five-member selector serves both the backlight and the LED
/// class, although LED devices only expose the two brightness attributes;
/// asking for an attribute a device does not have surfaces as a plain
/// read failure, not a distinguished error.
#[derive(Debug, Clone, Copy, PartialEq, Eq, Structural)]
pub enum SysBacklightInterface {
    Power,
    Brightness,
    ActualBrightness,
    MaxBrightness,
    Type,
}

/// The file name under which an attribute lives in a device directory.
pub open spec fn attr_file_name(a: SysBacklightInterface) -> Seq<char> {
    match a {
        SysBacklightInterface::Power => "bl_power"@,
        SysBacklightInterface::Brightness => "brightness"@,
        SysBacklightInterface::ActualBrightness => "actual_brightness"@,
        SysBacklightInterface::MaxBrightness => "max_brightness"@,
        SysBacklightInterface::Type => "type"@,
    }
}

impl SysBacklightInterface {
    /// The file name under which this attribute lives.
    pub fn file_name(&self) -> (r: &'static str)
        ensures
            r@ == attr_file_name(*self),
    {
        match self {
            SysBacklightInterface::Power => "bl_power",
            SysBacklightInterface::Brightness => "brightness",
            SysBacklightInterface::ActualBrightness => "actual_brightness",
            SysBacklightInterface::MaxBrightness => "max_brightness",
            SysBacklightInterface::Type => "type",
        }
    }
}

/// One attribute file of a device directory: the attribute it holds and the
/// raw file text, exactly as read, untrimmed.
#[derive(Debug, Clone)]
pub struct AttrFile {
    pub attr: SysBacklightInterface,
    pub content: String,
}

/// One device directory under a class root.
#[derive(Debug, Clone)]
pub struct DeviceDir {
    pub name: String,
    pub attrs: Vec<AttrFile>,
}

/// A device-class directory: whether the root exists at all, and the device
/// directories under it, in listing order.
#[derive(Debug, Clone)]
pub struct ClassDir {
    pub present: bool,
    pub devices: Vec<DeviceDir>,
}

/// The first device directory called `name`, if any.
pub open spec fn find_device(devices: Seq<DeviceDir>, name: Seq<char>) -> Option<DeviceDir>
    decreases devices.len(),
{
    if devices.len() == 0 {
        None
    } else if devices[0].name@ == name {
        Some(devices[0])
    } else {
        find_device(devices.drop_first(), name)
    }
}

/// The content of the first file for attribute `a`, if any.
pub open spec fn find_attr(attrs: Seq<AttrFile>, a: SysBacklightInterface) -> Option<Seq<char>>
    decreases attrs.len(),
{
    if attrs.len() == 0 {
        None
    } else if attrs[0].attr == a {
        Some(attrs[0].content@)
    } else {
        find_attr(attrs.drop_first(), a)
    }
}

/// The class root exists and lists a device directory called `name`.
pub open spec fn device_listed(root: ClassDir, name: Seq<char>) -> bool {
    root.present && find_device(root.devices@, name) is Some
}

/// What reading attribute `a` of device `name` yields: the file's text with
/// surrounding whitespace trimmed, or nothing if the root, the device or the
/// file is absent.
pub open spec fn attr_text(root: ClassDir, name: Seq<char>, a: SysBacklightInterface) -> Option<
    Seq<char>,
> {
    if root.present {
        match find_device(root.devices@, name) {
            Some(d) => match find_attr(d.attrs@, a) {
                Some(c) => Some(trim_spec(c)),
                None => None,
            },
            None => None,
        }
    } else {
        None
    }
}

fn find_device_index(devices: &Vec<DeviceDir>, name: &str) -> (r: Option<usize>)
    ensures
        match r {
            Some(i) => i < devices@.len() && find_device(devices@, name@) == Some(devices@[i as int]),
            None => find_device(devices@, name@) is None,
        },
{
    let n = devices.len();
    proof {
        assert(devices@.subrange(0, n as int) =~= devices@);
    }
    let mut i: usize = 0;
    while i < n
        invariant
            n == devices@.len(),
            0 <= i <= n,
            find_device(devices@, name@) == find_device(
                devices@.subrange(i as int, n as int),
                name@,
            ),
        decreases n - i,
    {
        if str_eq(devices[i].name.as_str(), name) {
            proof {
                assert(devices@.subrange(i as int, n as int)[0] == devices@[i as int]);
            }
            return Some(i);
        }
        proof {
            assert(devices@.subrange(i as int, n as int).drop_first() =~= devices@.subrange(
                i + 1,
                n as int,
            ));
        }
        i += 1;
    }
    None
}

fn find_attr_index(attrs: &Vec<AttrFile>, a: SysBacklightInterface) -> (r: Option<usize>)
    ensures
        match r {
            Some(i) => i < attrs@.len() && attrs@[i as int].attr == a && find_attr(attrs@, a)
                == Some(attrs@[i as int].content@),
            None => find_attr(attrs@, a) is None,
        },
{
    let n = attrs.len();
    proof {
        assert(attrs@.subrange(0, n as int) =~= attrs@);
    }
    let mut i: usize = 0;
    while i < n
        invariant
            n == attrs@.len(),
            0 <= i <= n,
            find_attr(attrs@, a) == find_attr(attrs@.subrange(i as int, n as int), a),
        decreases n - i,
    {
        if attrs[i].attr == a {
            proof {
                assert(attrs@.subrange(i as int, n as int)[0] == attrs@[i as int]);
            }
            return Some(i);
        }
        proof {
            assert(attrs@.subrange(i as int, n as int).drop_first() =~= attrs@.subrange(
                i + 1,
                n as int,
            ));
        }
        i += 1;
    }
    None
}

/// The class root exists and lists a device directory called `name`.
pub fn contains_device(root: &ClassDir, name: &str) -> (b: bool)
    ensures
        b == device_listed(*root, name@),
{
    if !root.present {
        return false;
    }
    match find_device_index(&root.devices, name) {
        Some(_) => true,
        None => false,
    }
}

/// Read attribute `info` of device `device` under `root` and trim the
/// surrounding whitespace; any absence — of the root, the device directory
/// or the attribute file — surfaces as a read failure naming the file.
pub fn read_attribute(root: &ClassDir, device: &str, info: SysBacklightInterface) -> (r: Result<
    String,
    Error,
>)
    ensures
        match attr_text(*root, device@, info) {
            Some(t) => r matches Ok(s) && s@ == t,
            None => r matches Err(e) && e matches Error::Io { file } && file@ == attr_file_name(
                info,
            ),
        },
{
    if !root.present {
        return Err(Error::Io { file: String::from_str(info.file_name()) });
    }
    match find_device_index(&root.devices, device) {
        Some(d) => match find_attr_index(&root.devices[d].attrs, info) {
            Some(f) => Ok(trim_str(root.devices[d].attrs[f].content.as_str())),
            None => Err(Error::Io { file: String::from_str(info.file_name()) }),
        },
        None => Err(Error::Io { file: String::from_str(info.file_name()) }),
    }
}

/// Read an attribute of a backlight device; `root` is the picture of the
/// backlight class directory.
pub fn read_sys_backlight(root: &ClassDir, device: &str, info: SysBacklightInterface) -> (r:
    Result<String, Error>)
    ensures
        match attr_text(*root, device@, info) {
            Some(t) => r matches Ok(s) && s@ == t,
            None => r matches Err(e) && e matches Error::Io { file } && file@ == attr_file_name(
                info,
            ),
        },
{
    read_attribute(root, device, info)
}

/// Read an attribute of an LED device; `root` is the picture of the LED
/// class directory.
pub fn read_sys_led(root: &ClassDir, device: &str, info: SysBacklightInterface) -> (r: Result<
    String,
    Error,
>)
    ensures
        match attr_text(*root, device@, info) {
            Some(t) => r matches Ok(s) && s@ == t,
            None => r matches Err(e) && e matches Error::Io { file } && file@ == attr_file_name(
                info,
            ),
        },
{
    read_attribute(root, device, info)
}

/// The device family a brightness change addresses.
#[derive(Debug, Clone, Copy, PartialEq, Eq, Structural)]
pub enum Subsystem {
    Backlight,
    Leds,
}

/// The subsystem name handed to the system-bus brightness call.
pub open spec fn subsystem_name(s: Subsystem) -> Seq<char> {
    match s {
        Subsystem::Backlight => "backlight"@,
        Subsystem::Leds => "leds"@,
    }
}

impl Subsystem {
    /// The subsystem name handed to the system-bus brightness call.
    pub fn as_str(&self) -> (r: &'static str)
        ensures
            r@ == subsystem_name(*self),
    {
        match self {
            Subsystem::Backlight => "backlight",
            Subsystem::Leds => "leds",
        }
    }
}

/// A fully decided brightness change, ready for an unverified backend to
/// carry out: the direct backend writes `payload` to the device's
/// `brightness` file; the system-bus backend passes the subsystem name, the
/// device name and `level` to the privileged brightness call.  Both describe
/// the same observable effect.
#[derive(Debug, Clone)]
pub struct BrightnessCommand {
    pub subsystem: Subsystem,
    pub device: String,
    pub level: u32,
    pub payload: String,
}

impl BrightnessCommand {
    /// The payload is exactly the decimal spelling of the level.
    pub open spec fn wf(self) -> bool {
        self.payload@ == dec_seq(self.level as nat)
    }

    /// Assemble the command for setting `device` of `subsystem` to `level`.
    pub fn new(subsystem: Subsystem, device: &str, level: u32) -> (r: BrightnessCommand)
        ensures
            r.wf(),
            r.subsystem == subsystem,
            r.device@ == device@,
            r.level == level,
    {
        BrightnessCommand { subsystem, device: device.to_owned(), level, payload: dec_string(level) }
    }
}

} // verus!
