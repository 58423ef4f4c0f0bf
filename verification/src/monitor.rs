//! Backlight class devices: the [`MonitorDevice`] record, the lookup
//! pipeline that builds one from the class directory picture, and the
//! brightness setter.

use vstd::prelude::*;

use crate::error::Error;
use crate::sysfs::{
    attr_file_name, attr_text, contains_device, device_listed, read_sys_backlight,
    BrightnessCommand, ClassDir, Subsystem, SysBacklightInterface,
};
use crate::text::{parse_u32, parse_u32_spec, str_eq};

verus! {

/// The conventional location of the backlight class directory.
pub const BACKLIGHT_DIR: &'static str = "/sys/class/backlight";

/// The type of interface a backlight driver controls.
#[derive(Debug, Clone, Copy, PartialEq, Eq, Structural)]
pub enum BackLightType {
    /// The driver uses a standard firmware interface.
    FirmWare,
    /// The driver uses a platform-specific interface.
    PlatForm,
    /// The driver controls hardware registers directly.
    Raw,
}

/// The token under which a backlight type appears in the `type` attribute.
pub open spec fn backlight_type_token(t: BackLightType) -> Seq<char> {
    match t {
        BackLightType::FirmWare => "firmware"@,
        BackLightType::PlatForm => "platform"@,
        BackLightType::Raw => "raw"@,
    }
}

/// The backlight type a `type` attribute names, if any.
pub open spec fn backlight_type_from(s: Seq<char>) -> Option<BackLightType> {
    if s == backlight_type_token(BackLightType::FirmWare) {
        Some(BackLightType::FirmWare)
    } else if s == backlight_type_token(BackLightType::PlatForm) {
        Some(BackLightType::PlatForm)
    } else if s == backlight_type_token(BackLightType::Raw) {
        Some(BackLightType::Raw)
    } else {
        None
    }
}

/// The display label of a backlight type.
pub open spec fn backlight_type_label(t: BackLightType) -> Seq<char> {
    match t {
        BackLightType::FirmWare => "Firmware"@,
        BackLightType::PlatForm => "Platform"@,
        BackLightType::Raw => "Raw"@,
    }
}

impl BackLightType {
    /// The display label of this backlight type.
    pub fn as_str(&self) -> (r: &'static str)
        ensures
            r@ == backlight_type_label(*self),
    {
        match self {
            BackLightType::FirmWare => "Firmware",
            BackLightType::PlatForm => "Platform",
            BackLightType::Raw => "Raw",
        }
    }

    /// The display label of this backlight type, as an owned string.
    pub fn to_string(&self) -> (r: String)
        ensures
            r@ == backlight_type_label(*self),
    {
        <String as vstd::string::StringExecFns>::from_str(self.as_str())
    }
}

/// A backlight device record, one per directory under the backlight class
/// root, built by reading its five attribute files at discovery time.
/// Nothing is cached: every query re-reads the class directory picture it
/// is given.
#[derive(Debug, Clone)]
pub struct MonitorDevice {
    /// Name of the backlight device: the directory name under the class
    /// root.
    pub device: String,
    /// Power state read from the `bl_power` attribute.
    pub bl_power: u32,
    /// Requested brightness read from the `brightness` attribute.
    pub brightness: u32,
    /// Hardware-reported brightness read from the `actual_brightness`
    /// attribute; may lag the requested value.
    pub actual_brightness: u32,
    /// Maximum brightness read from the `max_brightness` attribute.
    pub max_brightness: u32,
    /// Interface type read from the `type` attribute.
    pub bl_type: BackLightType,
}

/// The outcome of looking one device up in a backlight class directory:
/// either the five attribute values, or the first failure the fixed reading
/// order (power, brightness, actual, maximum, type) runs into.
pub enum MonitorLookup {
    /// The root or the device directory is absent.
    NotADevice,
    /// An attribute file is absent.
    MissingAttr { attr: SysBacklightInterface },
    /// An attribute file holds no valid non-negative integer.
    BadNumber { content: Seq<char> },
    /// The `type` attribute holds none of the known interface names.
    BadType { content: Seq<char> },
    /// Every attribute read and parsed.
    Found { power: u32, brightness: u32, actual: u32, max: u32, ty: BackLightType },
}

/// What looking up device `name` under `root` yields.
pub open spec fn monitor_lookup(root: ClassDir, name: Seq<char>) -> MonitorLookup {
    if !device_listed(root, name) {
        MonitorLookup::NotADevice
    } else {
        match attr_text(root, name, SysBacklightInterface::Power) {
            None => MonitorLookup::MissingAttr { attr: SysBacklightInterface::Power },
            Some(ptext) => match parse_u32_spec(ptext) {
                None => MonitorLookup::BadNumber { content: ptext },
                Some(power) => match attr_text(root, name, SysBacklightInterface::Brightness) {
                    None => MonitorLookup::MissingAttr { attr: SysBacklightInterface::Brightness },
                    Some(btext) => match parse_u32_spec(btext) {
                        None => MonitorLookup::BadNumber { content: btext },
                        Some(brightness) => match attr_text(
                            root,
                            name,
                            SysBacklightInterface::ActualBrightness,
                        ) {
                            None => MonitorLookup::MissingAttr {
                                attr: SysBacklightInterface::ActualBrightness,
                            },
                            Some(atext) => match parse_u32_spec(atext) {
                                None => MonitorLookup::BadNumber { content: atext },
                                Some(actual) => match attr_text(
                                    root,
                                    name,
                                    SysBacklightInterface::MaxBrightness,
                                ) {
                                    None => MonitorLookup::MissingAttr {
                                        attr: SysBacklightInterface::MaxBrightness,
                                    },
                                    Some(mtext) => match parse_u32_spec(mtext) {
                                        None => MonitorLookup::BadNumber { content: mtext },
                                        Some(max) => match attr_text(
                                            root,
                                            name,
                                            SysBacklightInterface::Type,
                                        ) {
                                            None => MonitorLookup::MissingAttr {
                                                attr: SysBacklightInterface::Type,
                                            },
                                            Some(ttext) => match backlight_type_from(ttext) {
                                                None => MonitorLookup::BadType { content: ttext },
                                                Some(ty) => MonitorLookup::Found {
                                                    power,
                                                    brightness,
                                                    actual,
                                                    max,
                                                    ty,
                                                },
                                            },
                                        },
                                    },
                                },
                            },
                        },
                    },
                },
            },
        }
    }
}

/// `m` is exactly the record that looking `name` up under `root` describes.
pub open spec fn monitor_record_of(m: MonitorDevice, root: ClassDir, name: Seq<char>) -> bool {
    &&& monitor_lookup(root, name) matches MonitorLookup::Found {
        power,
        brightness,
        actual,
        max,
        ty,
    }
    &&& m.device@ == name
    &&& m.bl_power == power
    &&& m.brightness == brightness
    &&& m.actual_brightness == actual
    &&& m.max_brightness == max
    &&& m.bl_type == ty
}

/// `e` is exactly the error that looking `name` up under `root` describes.
pub open spec fn monitor_error_of(e: Error, root: ClassDir, name: Seq<char>) -> bool {
    match monitor_lookup(root, name) {
        MonitorLookup::NotADevice => e matches Error::InvalidDeviceName { device } && device@
            == name,
        MonitorLookup::MissingAttr { attr } => e matches Error::Io { file } && file@
            == attr_file_name(attr),
        MonitorLookup::BadNumber { content } => e matches Error::ParseBrightnessError {
            content: c,
        } && c@ == content,
        MonitorLookup::BadType { content } => e matches Error::UnknownBacklightType { value }
            && value@ == content,
        MonitorLookup::Found { .. } => false,
    }
}

/// The first index at or after `i` whose device fails to look up as a
/// monitor, or the number of devices if every one from `i` on succeeds.
pub open spec fn first_bad_monitor(root: ClassDir, i: int) -> int
    decreases root.devices@.len() - i,
{
    if i < 0 || i >= root.devices@.len() {
        root.devices@.len() as int
    } else if !(monitor_lookup(root, root.devices@[i].name@) is Found) {
        i
    } else {
        first_bad_monitor(root, i + 1)
    }
}

proof fn lemma_first_bad_monitor_from(root: ClassDir, i: int)
    requires
        0 <= i <= root.devices@.len(),
        forall|j: int|
            0 <= j < i ==> monitor_lookup(root, #[trigger] root.devices@[j].name@) is Found,
    ensures
        first_bad_monitor(root, 0) == first_bad_monitor(root, i),
    decreases i,
{
    if i > 0 {
        lemma_first_bad_monitor_from(root, i - 1);
    }
}

impl MonitorDevice {
    /// The record's numbers respect the device-class contract: brightness
    /// values never exceed the maximum, and a real device reports a
    /// positive maximum.  The kernel promises this of the attribute files;
    /// the picture handed in may of course break it, so nothing here
    /// assumes it.
    pub open spec fn wf(self) -> bool {
        &&& self.brightness <= self.max_brightness
        &&& self.actual_brightness <= self.max_brightness
        &&& self.max_brightness > 0
    }

    /// Look up the monitor called `device` in the picture of the backlight
    /// class directory: read and parse its five attributes in a fixed
    /// order, stopping at the first failure.
    pub fn get_monitor_device(root: &ClassDir, device: String) -> (r: Result<MonitorDevice, Error>)
        ensures
            match r {
                Ok(m) => monitor_record_of(m, *root, device@),
                Err(e) => !(monitor_lookup(*root, device@) is Found) && monitor_error_of(
                    e,
                    *root,
                    device@,
                ),
            },
    {
        if !contains_device(root, device.as_str()) {
            return Err(Error::InvalidDeviceName { device });
        }
        let ptext = match read_sys_backlight(root, device.as_str(), SysBacklightInterface::Power) {
            Ok(s) => s,
            Err(e) => { return Err(e) },
        };
        let bl_power = match parse_u32(ptext.as_str()) {
            Some(v) => v,
            None => { return Err(Error::ParseBrightnessError { content: ptext }) },
        };
        let btext = match read_sys_backlight(
            root,
            device.as_str(),
            SysBacklightInterface::Brightness,
        ) {
            Ok(s) => s,
            Err(e) => { return Err(e) },
        };
        let brightness = match parse_u32(btext.as_str()) {
            Some(v) => v,
            None => { return Err(Error::ParseBrightnessError { content: btext }) },
        };
        let atext = match read_sys_backlight(
            root,
            device.as_str(),
            SysBacklightInterface::ActualBrightness,
        ) {
            Ok(s) => s,
            Err(e) => { return Err(e) },
        };
        let actual_brightness = match parse_u32(atext.as_str()) {
            Some(v) => v,
            None => { return Err(Error::ParseBrightnessError { content: atext }) },
        };
        let mtext = match read_sys_backlight(
            root,
            device.as_str(),
            SysBacklightInterface::MaxBrightness,
        ) {
            Ok(s) => s,
            Err(e) => { return Err(e) },
        };
        let max_brightness = match parse_u32(mtext.as_str()) {
            Some(v) => v,
            None => { return Err(Error::ParseBrightnessError { content: mtext }) },
        };
        let ttext = match read_sys_backlight(root, device.as_str(), SysBacklightInterface::Type) {
            Ok(s) => s,
            Err(e) => { return Err(e) },
        };
        let bl_type = if str_eq(ttext.as_str(), "firmware") {
            BackLightType::FirmWare
        } else if str_eq(ttext.as_str(), "platform") {
            BackLightType::PlatForm
        } else if str_eq(ttext.as_str(), "raw") {
            BackLightType::Raw
        } else {
            return Err(Error::UnknownBacklightType { value: ttext });
        };
        Ok(
            MonitorDevice {
                device,
                bl_power,
                brightness,
                actual_brightness,
                max_brightness,
                bl_type,
            },
        )
    }

    /// Every monitor under the backlight class root, in listing order.  An
    /// absent root yields an empty collection, not an error; the first
    /// per-device failure aborts the whole enumeration.
    pub fn get_all_monitor_devices(root: &ClassDir) -> (r: Result<Vec<MonitorDevice>, Error>)
        ensures
            !root.present ==> (r matches Ok(v) && v@.len() == 0),
            root.present ==> ({
                let devs = root.devices@;
                let k = first_bad_monitor(*root, 0);
                if k == devs.len() {
                    r matches Ok(v) && v@.len() == devs.len() && forall|i: int|
                        0 <= i < devs.len() ==> monitor_record_of(
                            #[trigger] v@[i],
                            *root,
                            devs[i].name@,
                        )
                } else {
                    r matches Err(e) && monitor_error_of(e, *root, devs[k].name@)
                }
            }),
    {
        let mut monitors: Vec<MonitorDevice> = Vec::new();
        if !root.present {
            return Ok(monitors);
        }
        let n = root.devices.len();
        let mut i: usize = 0;
        while i < n
            invariant
                root.present,
                n == root.devices@.len(),
                0 <= i <= n,
                monitors@.len() == i,
                forall|j: int|
                    0 <= j < i ==> monitor_lookup(*root, #[trigger] root.devices@[j].name@)
                        is Found,
                forall|j: int|
                    0 <= j < i ==> monitor_record_of(
                        #[trigger] monitors@[j],
                        *root,
                        root.devices@[j].name@,
                    ),
            decreases n - i,
        {
            let device_name = root.devices[i].name.clone();
            match MonitorDevice::get_monitor_device(root, device_name) {
                Ok(dev) => monitors.push(dev),
                Err(e) => {
                    proof {
                        lemma_first_bad_monitor_from(*root, i as int);
                    }
                    return Err(e);
                },
            }
            i += 1;
        }
        proof {
            lemma_first_bad_monitor_from(*root, n as int);
        }
        Ok(monitors)
    }

    /// Name of the monitor's device directory.
    pub fn get_device_name(&self) -> (r: &str)
        ensures
            r@ == self.device@,
    {
        self.device.as_str()
    }

    /// Power state of the monitor.
    pub fn get_power(&self) -> (r: u32)
        ensures
            r == self.bl_power,
    {
        self.bl_power
    }

    /// Requested brightness of the monitor.
    pub fn get_brightness(&self) -> (r: u32)
        ensures
            r == self.brightness,
    {
        self.brightness
    }

    /// Hardware-reported brightness of the monitor.
    pub fn get_actual_brightness(&self) -> (r: u32)
        ensures
            r == self.actual_brightness,
    {
        self.actual_brightness
    }

    /// Maximum brightness of the monitor.
    pub fn get_max_brightness(&self) -> (r: u32)
        ensures
            r == self.max_brightness,
    {
        self.max_brightness
    }

    /// Backlight type of the monitor.
    pub fn get_type(&self) -> (r: BackLightType)
        ensures
            r == self.bl_type,
    {
        self.bl_type
    }

    /// Decide a brightness change for this monitor.  A level above the
    /// device's maximum is refused outright — no command is produced, so no
    /// backend ever writes in that case.  Otherwise the returned command
    /// names the backlight subsystem, this device and the level, with the
    /// decimal payload the direct-write backend puts in the `brightness`
    /// file.
    pub fn set_brightness(&self, level: u32) -> (r: Result<BrightnessCommand, Error>)
        ensures
            level > self.max_brightness ==> (r matches Err(e) && e
                matches Error::InvalidBrightnessLevel { given, max } && given == level && max
                == self.max_brightness),
            level <= self.max_brightness ==> (r matches Ok(c) && c.wf() && c.subsystem
                == Subsystem::Backlight && c.device@ == self.device@ && c.level == level),
    {
        if level <= self.max_brightness {
            Ok(BrightnessCommand::new(Subsystem::Backlight, self.device.as_str(), level))
        } else {
            Err(Error::InvalidBrightnessLevel { given: level, max: self.max_brightness })
        }
    }
}

} // verus!
