//! LED class devices: structured identity parsed from the device name,
//! the closed colour and function vocabularies, filters, and the directory
//! operations that materialise [`LedDevice`] records.

use vstd::prelude::*;
use vstd::string::StringExecFns;

use crate::error::Error;
use crate::sysfs::{
    attr_file_name, attr_text, contains_device, device_listed, read_sys_led, BrightnessCommand,
    ClassDir, DeviceDir, Subsystem, SysBacklightInterface,
};
use crate::text::{
    contains_seq, name_segments, parse_u32, parse_u32_spec, split_segments, str_contains, str_eq,
    views_of,
};

verus! {

/// The conventional location of the LED class directory.
pub const LEDS_DIR: &'static str = "/sys/class/leds";

/// Colour of an LED, drawn from the kernel's closed vocabulary.
#[derive(Debug, Clone, Copy, PartialEq, Eq, Structural)]
pub enum LedColor {
    White,
    Red,
    Green,
    Blue,
    Amber,
    Violet,
    Yellow,
    Ir,
    Multi,
    Rgb,
    Max,
}

/// Function of an LED, drawn from the kernel's closed vocabulary.
#[derive(Debug, Clone, Copy, PartialEq, Eq, Structural)]
pub enum LedFunction {
    CapsLock,
    ScrollLock,
    NumLock,
    KbdBacklight,
    Power,
    Disk,
    Charging,
    Status,
    MicMute,
    Mute,
    Player1,
    Player2,
    Player3,
    Player4,
    Player5,
    Activity,
    Alarm,
    Backlight,
    Bluetooth,
    Boot,
    Cpu,
    Debug,
    DiskActivity,
    DiskErr,
    DiskRead,
    DiskWrite,
    Fault,
    Flash,
    Heartbeat,
    Indicator,
    Lan,
    Mail,
    Mtd,
    Panic,
    Programming,
    Rx,
    Sd,
    Standby,
    Torch,
    Tx,
    Usb,
    Wan,
    Wlan,
    Wps,
}

/// The canonical kernel token for a colour.
pub open spec fn color_token(c: LedColor) -> Seq<char> {
    match c {
        LedColor::White => "white"@,
        LedColor::Red => "red"@,
        LedColor::Green => "green"@,
        LedColor::Blue => "blue"@,
        LedColor::Amber => "amber"@,
        LedColor::Violet => "violet"@,
        LedColor::Yellow => "yellow"@,
        LedColor::Ir => "ir"@,
        LedColor::Multi => "multi"@,
        LedColor::Rgb => "rgb"@,
        LedColor::Max => "max"@,
    }
}

/// The colour whose canonical token is exactly `s`, if any.
pub open spec fn color_from_token(s: Seq<char>) -> Option<LedColor> {
    if s == color_token(LedColor::White) {
        Some(LedColor::White)
    } else if s == color_token(LedColor::Red) {
        Some(LedColor::Red)
    } else if s == color_token(LedColor::Green) {
        Some(LedColor::Green)
    } else if s == color_token(LedColor::Blue) {
        Some(LedColor::Blue)
    } else if s == color_token(LedColor::Amber) {
        Some(LedColor::Amber)
    } else if s == color_token(LedColor::Violet) {
        Some(LedColor::Violet)
    } else if s == color_token(LedColor::Yellow) {
        Some(LedColor::Yellow)
    } else if s == color_token(LedColor::Ir) {
        Some(LedColor::Ir)
    } else if s == color_token(LedColor::Multi) {
        Some(LedColor::Multi)
    } else if s == color_token(LedColor::Rgb) {
        Some(LedColor::Rgb)
    } else if s == color_token(LedColor::Max) {
        Some(LedColor::Max)
    } else {
        None
    }
}

/// The canonical kernel token for a function.
pub open spec fn function_token(f: LedFunction) -> Seq<char> {
    match f {
        LedFunction::CapsLock => "capslock"@,
        LedFunction::ScrollLock => "scrolllock"@,
        LedFunction::NumLock => "numlock"@,
        LedFunction::KbdBacklight => "kbd_backlight"@,
        LedFunction::Power => "power"@,
        LedFunction::Disk => "disk"@,
        LedFunction::Charging => "charging"@,
        LedFunction::Status => "status"@,
        LedFunction::MicMute => "micmute"@,
        LedFunction::Mute => "mute"@,
        LedFunction::Player1 => "player-1"@,
        LedFunction::Player2 => "player-2"@,
        LedFunction::Player3 => "player-3"@,
        LedFunction::Player4 => "player-4"@,
        LedFunction::Player5 => "player-5"@,
        LedFunction::Activity => "activity"@,
        LedFunction::Alarm => "alarm"@,
        LedFunction::Backlight => "backlight"@,
        LedFunction::Bluetooth => "bluetooth"@,
        LedFunction::Boot => "boot"@,
        LedFunction::Cpu => "cpu"@,
        LedFunction::Debug => "debug"@,
        LedFunction::DiskActivity => "disk-activity"@,
        LedFunction::DiskErr => "disk-err"@,
        LedFunction::DiskRead => "disk-read"@,
        LedFunction::DiskWrite => "disk-write"@,
        LedFunction::Fault => "fault"@,
        LedFunction::Flash => "flash"@,
        LedFunction::Heartbeat => "heartbeat"@,
        LedFunction::Indicator => "indicator"@,
        LedFunction::Lan => "lan"@,
        LedFunction::Mail => "mail"@,
        LedFunction::Mtd => "mtd"@,
        LedFunction::Panic => "panic"@,
        LedFunction::Programming => "programming"@,
        LedFunction::Rx => "rx"@,
        LedFunction::Sd => "sd"@,
        LedFunction::Standby => "standby"@,
        LedFunction::Torch => "torch"@,
        LedFunction::Tx => "tx"@,
        LedFunction::Usb => "usb"@,
        LedFunction::Wan => "wan"@,
        LedFunction::Wlan => "wlan"@,
        LedFunction::Wps => "wps"@,
    }
}

/// The function whose canonical token is exactly `s`, if any.
pub open spec fn function_from_token(s: Seq<char>) -> Option<LedFunction> {
    if s == function_token(LedFunction::CapsLock) {
        Some(LedFunction::CapsLock)
    } else if s == function_token(LedFunction::ScrollLock) {
        Some(LedFunction::ScrollLock)
    } else if s == function_token(LedFunction::NumLock) {
        Some(LedFunction::NumLock)
    } else if s == function_token(LedFunction::KbdBacklight) {
        Some(LedFunction::KbdBacklight)
    } else if s == function_token(LedFunction::Power) {
        Some(LedFunction::Power)
    } else if s == function_token(LedFunction::Disk) {
        Some(LedFunction::Disk)
    } else if s == function_token(LedFunction::Charging) {
        Some(LedFunction::Charging)
    } else if s == function_token(LedFunction::Status) {
        Some(LedFunction::Status)
    } else if s == function_token(LedFunction::MicMute) {
        Some(LedFunction::MicMute)
    } else if s == function_token(LedFunction::Mute) {
        Some(LedFunction::Mute)
    } else if s == function_token(LedFunction::Player1) {
        Some(LedFunction::Player1)
    } else if s == function_token(LedFunction::Player2) {
        Some(LedFunction::Player2)
    } else if s == function_token(LedFunction::Player3) {
        Some(LedFunction::Player3)
    } else if s == function_token(LedFunction::Player4) {
        Some(LedFunction::Player4)
    } else if s == function_token(LedFunction::Player5) {
        Some(LedFunction::Player5)
    } else if s == function_token(LedFunction::Activity) {
        Some(LedFunction::Activity)
    } else if s == function_token(LedFunction::Alarm) {
        Some(LedFunction::Alarm)
    } else if s == function_token(LedFunction::Backlight) {
        Some(LedFunction::Backlight)
    } else if s == function_token(LedFunction::Bluetooth) {
        Some(LedFunction::Bluetooth)
    } else if s == function_token(LedFunction::Boot) {
        Some(LedFunction::Boot)
    } else if s == function_token(LedFunction::Cpu) {
        Some(LedFunction::Cpu)
    } else if s == function_token(LedFunction::Debug) {
        Some(LedFunction::Debug)
    } else if s == function_token(LedFunction::DiskActivity) {
        Some(LedFunction::DiskActivity)
    } else if s == function_token(LedFunction::DiskErr) {
        Some(LedFunction::DiskErr)
    } else if s == function_token(LedFunction::DiskRead) {
        Some(LedFunction::DiskRead)
    } else if s == function_token(LedFunction::DiskWrite) {
        Some(LedFunction::DiskWrite)
    } else if s == function_token(LedFunction::Fault) {
        Some(LedFunction::Fault)
    } else if s == function_token(LedFunction::Flash) {
        Some(LedFunction::Flash)
    } else if s == function_token(LedFunction::Heartbeat) {
        Some(LedFunction::Heartbeat)
    } else if s == function_token(LedFunction::Indicator) {
        Some(LedFunction::Indicator)
    } else if s == function_token(LedFunction::Lan) {
        Some(LedFunction::Lan)
    } else if s == function_token(LedFunction::Mail) {
        Some(LedFunction::Mail)
    } else if s == function_token(LedFunction::Mtd) {
        Some(LedFunction::Mtd)
    } else if s == function_token(LedFunction::Panic) {
        Some(LedFunction::Panic)
    } else if s == function_token(LedFunction::Programming) {
        Some(LedFunction::Programming)
    } else if s == function_token(LedFunction::Rx) {
        Some(LedFunction::Rx)
    } else if s == function_token(LedFunction::Sd) {
        Some(LedFunction::Sd)
    } else if s == function_token(LedFunction::Standby) {
        Some(LedFunction::Standby)
    } else if s == function_token(LedFunction::Torch) {
        Some(LedFunction::Torch)
    } else if s == function_token(LedFunction::Tx) {
        Some(LedFunction::Tx)
    } else if s == function_token(LedFunction::Usb) {
        Some(LedFunction::Usb)
    } else if s == function_token(LedFunction::Wan) {
        Some(LedFunction::Wan)
    } else if s == function_token(LedFunction::Wlan) {
        Some(LedFunction::Wlan)
    } else if s == function_token(LedFunction::Wps) {
        Some(LedFunction::Wps)
    } else {
        None
    }
}

impl LedColor {
    /// The colour named by `s`, exactly and case-sensitively; `None` for any
    /// non-canonical token.
    pub fn from_id(s: &str) -> (r: Option<Self>)
        ensures
            r == color_from_token(s@),
    {
        if str_eq(s, "white") {
            Some(LedColor::White)
        } else if str_eq(s, "red") {
            Some(LedColor::Red)
        } else if str_eq(s, "green") {
            Some(LedColor::Green)
        } else if str_eq(s, "blue") {
            Some(LedColor::Blue)
        } else if str_eq(s, "amber") {
            Some(LedColor::Amber)
        } else if str_eq(s, "violet") {
            Some(LedColor::Violet)
        } else if str_eq(s, "yellow") {
            Some(LedColor::Yellow)
        } else if str_eq(s, "ir") {
            Some(LedColor::Ir)
        } else if str_eq(s, "multi") {
            Some(LedColor::Multi)
        } else if str_eq(s, "rgb") {
            Some(LedColor::Rgb)
        } else if str_eq(s, "max") {
            Some(LedColor::Max)
        } else {
            None
        }
    }

    /// The canonical token of this colour.
    pub fn as_str(&self) -> (r: &'static str)
        ensures
            r@ == color_token(*self),
    {
        match self {
            LedColor::White => "white",
            LedColor::Red => "red",
            LedColor::Green => "green",
            LedColor::Blue => "blue",
            LedColor::Amber => "amber",
            LedColor::Violet => "violet",
            LedColor::Yellow => "yellow",
            LedColor::Ir => "ir",
            LedColor::Multi => "multi",
            LedColor::Rgb => "rgb",
            LedColor::Max => "max",
        }
    }

    /// The canonical token of this colour, as an owned string.
    pub fn to_string(&self) -> (r: String)
        ensures
            r@ == color_token(*self),
    {
        String::from_str(self.as_str())
    }
}

impl LedFunction {
    /// The function named by `s`, exactly and case-sensitively; `None` for
    /// any non-canonical token.
    pub fn from_id(s: &str) -> (r: Option<Self>)
        ensures
            r == function_from_token(s@),
    {
        if str_eq(s, "capslock") {
            Some(LedFunction::CapsLock)
        } else if str_eq(s, "scrolllock") {
            Some(LedFunction::ScrollLock)
        } else if str_eq(s, "numlock") {
            Some(LedFunction::NumLock)
        } else if str_eq(s, "kbd_backlight") {
            Some(LedFunction::KbdBacklight)
        } else if str_eq(s, "power") {
            Some(LedFunction::Power)
        } else if str_eq(s, "disk") {
            Some(LedFunction::Disk)
        } else if str_eq(s, "charging") {
            Some(LedFunction::Charging)
        } else if str_eq(s, "status") {
            Some(LedFunction::Status)
        } else if str_eq(s, "micmute") {
            Some(LedFunction::MicMute)
        } else if str_eq(s, "mute") {
            Some(LedFunction::Mute)
        } else if str_eq(s, "player-1") {
            Some(LedFunction::Player1)
        } else if str_eq(s, "player-2") {
            Some(LedFunction::Player2)
        } else if str_eq(s, "player-3") {
            Some(LedFunction::Player3)
        } else if str_eq(s, "player-4") {
            Some(LedFunction::Player4)
        } else if str_eq(s, "player-5") {
            Some(LedFunction::Player5)
        } else if str_eq(s, "activity") {
            Some(LedFunction::Activity)
        } else if str_eq(s, "alarm") {
            Some(LedFunction::Alarm)
        } else if str_eq(s, "backlight") {
            Some(LedFunction::Backlight)
        } else if str_eq(s, "bluetooth") {
            Some(LedFunction::Bluetooth)
        } else if str_eq(s, "boot") {
            Some(LedFunction::Boot)
        } else if str_eq(s, "cpu") {
            Some(LedFunction::Cpu)
        } else if str_eq(s, "debug") {
            Some(LedFunction::Debug)
        } else if str_eq(s, "disk-activity") {
            Some(LedFunction::DiskActivity)
        } else if str_eq(s, "disk-err") {
            Some(LedFunction::DiskErr)
        } else if str_eq(s, "disk-read") {
            Some(LedFunction::DiskRead)
        } else if str_eq(s, "disk-write") {
            Some(LedFunction::DiskWrite)
        } else if str_eq(s, "fault") {
            Some(LedFunction::Fault)
        } else if str_eq(s, "flash") {
            Some(LedFunction::Flash)
        } else if str_eq(s, "heartbeat") {
            Some(LedFunction::Heartbeat)
        } else if str_eq(s, "indicator") {
            Some(LedFunction::Indicator)
        } else if str_eq(s, "lan") {
            Some(LedFunction::Lan)
        } else if str_eq(s, "mail") {
            Some(LedFunction::Mail)
        } else if str_eq(s, "mtd") {
            Some(LedFunction::Mtd)
        } else if str_eq(s, "panic") {
            Some(LedFunction::Panic)
        } else if str_eq(s, "programming") {
            Some(LedFunction::Programming)
        } else if str_eq(s, "rx") {
            Some(LedFunction::Rx)
        } else if str_eq(s, "sd") {
            Some(LedFunction::Sd)
        } else if str_eq(s, "standby") {
            Some(LedFunction::Standby)
        } else if str_eq(s, "torch") {
            Some(LedFunction::Torch)
        } else if str_eq(s, "tx") {
            Some(LedFunction::Tx)
        } else if str_eq(s, "usb") {
            Some(LedFunction::Usb)
        } else if str_eq(s, "wan") {
            Some(LedFunction::Wan)
        } else if str_eq(s, "wlan") {
            Some(LedFunction::Wlan)
        } else if str_eq(s, "wps") {
            Some(LedFunction::Wps)
        } else {
            None
        }
    }

    /// The canonical token of this function.
    pub fn as_str(&self) -> (r: &'static str)
        ensures
            r@ == function_token(*self),
    {
        match self {
            LedFunction::CapsLock => "capslock",
            LedFunction::ScrollLock => "scrolllock",
            LedFunction::NumLock => "numlock",
            LedFunction::KbdBacklight => "kbd_backlight",
            LedFunction::Power => "power",
            LedFunction::Disk => "disk",
            LedFunction::Charging => "charging",
            LedFunction::Status => "status",
            LedFunction::MicMute => "micmute",
            LedFunction::Mute => "mute",
            LedFunction::Player1 => "player-1",
            LedFunction::Player2 => "player-2",
            LedFunction::Player3 => "player-3",
            LedFunction::Player4 => "player-4",
            LedFunction::Player5 => "player-5",
            LedFunction::Activity => "activity",
            LedFunction::Alarm => "alarm",
            LedFunction::Backlight => "backlight",
            LedFunction::Bluetooth => "bluetooth",
            LedFunction::Boot => "boot",
            LedFunction::Cpu => "cpu",
            LedFunction::Debug => "debug",
            LedFunction::DiskActivity => "disk-activity",
            LedFunction::DiskErr => "disk-err",
            LedFunction::DiskRead => "disk-read",
            LedFunction::DiskWrite => "disk-write",
            LedFunction::Fault => "fault",
            LedFunction::Flash => "flash",
            LedFunction::Heartbeat => "heartbeat",
            LedFunction::Indicator => "indicator",
            LedFunction::Lan => "lan",
            LedFunction::Mail => "mail",
            LedFunction::Mtd => "mtd",
            LedFunction::Panic => "panic",
            LedFunction::Programming => "programming",
            LedFunction::Rx => "rx",
            LedFunction::Sd => "sd",
            LedFunction::Standby => "standby",
            LedFunction::Torch => "torch",
            LedFunction::Tx => "tx",
            LedFunction::Usb => "usb",
            LedFunction::Wan => "wan",
            LedFunction::Wlan => "wlan",
            LedFunction::Wps => "wps",
        }
    }

    /// The canonical token of this function, as an owned string.
    pub fn to_string(&self) -> (r: String)
        ensures
            r@ == function_token(*self),
    {
        String::from_str(self.as_str())
    }
}

/// Every canonical colour token names the colour it came from: stringifying
/// and parsing back is the identity.
#[verifier::rlimit(100)]
pub proof fn lemma_color_round_trip(c: LedColor)
    ensures
        color_from_token(color_token(c)) == Some(c),
{
    broadcast use vstd::string::group_string_axioms;

    reveal_strlit("white");
    reveal_strlit("red");
    reveal_strlit("green");
    reveal_strlit("blue");
    reveal_strlit("amber");
    reveal_strlit("violet");
    reveal_strlit("yellow");
    reveal_strlit("ir");
    reveal_strlit("multi");
    reveal_strlit("rgb");
    reveal_strlit("max");
    assert("white"@.len() == 5);
    assert("red"@.len() == 3);
    assert("green"@.len() == 5);
    assert("blue"@.len() == 4);
    assert("amber"@.len() == 5);
    assert("violet"@.len() == 6);
    assert("yellow"@.len() == 6);
    assert("ir"@.len() == 2);
    assert("multi"@.len() == 5);
    assert("rgb"@.len() == 3);
    assert("max"@.len() == 3);
    match c {
        LedColor::White => {
            assert(color_token(c) == "white"@);
            assert(color_from_token("white"@) == Some(LedColor::White));
        },
        LedColor::Red => {
            assert(color_token(c) == "red"@);
            assert(color_from_token("red"@) == Some(LedColor::Red));
        },
        LedColor::Green => {
            assert("green"@[0] != "white"@[0]);
            assert(color_token(c) == "green"@);
            assert(color_from_token("green"@) == Some(LedColor::Green));
        },
        LedColor::Blue => {
            assert(color_token(c) == "blue"@);
            assert(color_from_token("blue"@) == Some(LedColor::Blue));
        },
        LedColor::Amber => {
            assert("amber"@[0] != "white"@[0]);
            assert("amber"@[0] != "green"@[0]);
            assert(color_token(c) == "amber"@);
            assert(color_from_token("amber"@) == Some(LedColor::Amber));
        },
        LedColor::Violet => {
            assert(color_token(c) == "violet"@);
            assert(color_from_token("violet"@) == Some(LedColor::Violet));
        },
        LedColor::Yellow => {
            assert("yellow"@[0] != "violet"@[0]);
            assert(color_token(c) == "yellow"@);
            assert(color_from_token("yellow"@) == Some(LedColor::Yellow));
        },
        LedColor::Ir => {
            assert(color_token(c) == "ir"@);
            assert(color_from_token("ir"@) == Some(LedColor::Ir));
        },
        LedColor::Multi => {
            assert("multi"@[0] != "white"@[0]);
            assert("multi"@[0] != "green"@[0]);
            assert("multi"@[0] != "amber"@[0]);
            assert(color_token(c) == "multi"@);
            assert(color_from_token("multi"@) == Some(LedColor::Multi));
        },
        LedColor::Rgb => {
            assert("rgb"@[1] != "red"@[1]);
            assert(color_token(c) == "rgb"@);
            assert(color_from_token("rgb"@) == Some(LedColor::Rgb));
        },
        LedColor::Max => {
            assert("max"@[0] != "red"@[0]);
            assert("max"@[0] != "rgb"@[0]);
            assert(color_token(c) == "max"@);
            assert(color_from_token("max"@) == Some(LedColor::Max));
        },
    }
}

/// A token recognised as a colour is that colour's canonical token.
pub proof fn lemma_color_token_exact(s: Seq<char>)
    ensures
        color_from_token(s) matches Some(c) ==> color_token(c) == s,
{
}

/// Every canonical function token names the function it came from:
/// stringifying and parsing back is the identity.
#[verifier::rlimit(60)]
pub proof fn lemma_function_round_trip(f: LedFunction)
    ensures
        function_from_token(function_token(f)) == Some(f),
{
    broadcast use vstd::string::group_string_axioms;

    reveal_strlit("capslock");
    reveal_strlit("scrolllock");
    reveal_strlit("numlock");
    reveal_strlit("kbd_backlight");
    reveal_strlit("power");
    reveal_strlit("disk");
    reveal_strlit("charging");
    reveal_strlit("status");
    reveal_strlit("micmute");
    reveal_strlit("mute");
    reveal_strlit("player-1");
    reveal_strlit("player-2");
    reveal_strlit("player-3");
    reveal_strlit("player-4");
    reveal_strlit("player-5");
    reveal_strlit("activity");
    reveal_strlit("alarm");
    reveal_strlit("backlight");
    reveal_strlit("bluetooth");
    reveal_strlit("boot");
    reveal_strlit("cpu");
    reveal_strlit("debug");
    reveal_strlit("disk-activity");
    reveal_strlit("disk-err");
    reveal_strlit("disk-read");
    reveal_strlit("disk-write");
    reveal_strlit("fault");
    reveal_strlit("flash");
    reveal_strlit("heartbeat");
    reveal_strlit("indicator");
    reveal_strlit("lan");
    reveal_strlit("mail");
    reveal_strlit("mtd");
    reveal_strlit("panic");
    reveal_strlit("programming");
    reveal_strlit("rx");
    reveal_strlit("sd");
    reveal_strlit("standby");
    reveal_strlit("torch");
    reveal_strlit("tx");
    reveal_strlit("usb");
    reveal_strlit("wan");
    reveal_strlit("wlan");
    reveal_strlit("wps");
    assert("capslock"@.len() == 8);
    assert("scrolllock"@.len() == 10);
    assert("numlock"@.len() == 7);
    assert("kbd_backlight"@.len() == 13);
    assert("power"@.len() == 5);
    assert("disk"@.len() == 4);
    assert("charging"@.len() == 8);
    assert("status"@.len() == 6);
    assert("micmute"@.len() == 7);
    assert("mute"@.len() == 4);
    assert("player-1"@.len() == 8);
    assert("player-2"@.len() == 8);
    assert("player-3"@.len() == 8);
    assert("player-4"@.len() == 8);
    assert("player-5"@.len() == 8);
    assert("activity"@.len() == 8);
    assert("alarm"@.len() == 5);
    assert("backlight"@.len() == 9);
    assert("bluetooth"@.len() == 9);
    assert("boot"@.len() == 4);
    assert("cpu"@.len() == 3);
    assert("debug"@.len() == 5);
    assert("disk-activity"@.len() == 13);
    assert("disk-err"@.len() == 8);
    assert("disk-read"@.len() == 9);
    assert("disk-write"@.len() == 10);
    assert("fault"@.len() == 5);
    assert("flash"@.len() == 5);
    assert("heartbeat"@.len() == 9);
    assert("indicator"@.len() == 9);
    assert("lan"@.len() == 3);
    assert("mail"@.len() == 4);
    assert("mtd"@.len() == 3);
    assert("panic"@.len() == 5);
    assert("programming"@.len() == 11);
    assert("rx"@.len() == 2);
    assert("sd"@.len() == 2);
    assert("standby"@.len() == 7);
    assert("torch"@.len() == 5);
    assert("tx"@.len() == 2);
    assert("usb"@.len() == 3);
    assert("wan"@.len() == 3);
    assert("wlan"@.len() == 4);
    assert("wps"@.len() == 3);
    match f {
        LedFunction::CapsLock => {
            assert(function_token(f) == "capslock"@);
            assert(function_from_token("capslock"@) == Some(LedFunction::CapsLock));
        },
        LedFunction::ScrollLock => {
            assert(function_token(f) == "scrolllock"@);
            assert(function_from_token("scrolllock"@) == Some(LedFunction::ScrollLock));
        },
        LedFunction::NumLock => {
            assert(function_token(f) == "numlock"@);
            assert(function_from_token("numlock"@) == Some(LedFunction::NumLock));
        },
        LedFunction::KbdBacklight => {
            assert(function_token(f) == "kbd_backlight"@);
            assert(function_from_token("kbd_backlight"@) == Some(LedFunction::KbdBacklight));
        },
        LedFunction::Power => {
            assert(function_token(f) == "power"@);
            assert(function_from_token("power"@) == Some(LedFunction::Power));
        },
        LedFunction::Disk => {
            assert(function_token(f) == "disk"@);
            assert(function_from_token("disk"@) == Some(LedFunction::Disk));
        },
        LedFunction::Charging => {
            assert("charging"@[1] != "capslock"@[1]);
            assert(function_token(f) == "charging"@);
            assert(function_from_token("charging"@) == Some(LedFunction::Charging));
        },
        LedFunction::Status => {
            assert(function_token(f) == "status"@);
            assert(function_from_token("status"@) == Some(LedFunction::Status));
        },
        LedFunction::MicMute => {
            assert("micmute"@[0] != "numlock"@[0]);
            assert(function_token(f) == "micmute"@);
            assert(function_from_token("micmute"@) == Some(LedFunction::MicMute));
        },
        LedFunction::Mute => {
            assert("mute"@[0] != "disk"@[0]);
            assert(function_token(f) == "mute"@);
            assert(function_from_token("mute"@) == Some(LedFunction::Mute));
        },
        LedFunction::Player1 => {
            assert("player-1"@[0] != "capslock"@[0]);
            assert("player-1"@[0] != "charging"@[0]);
            assert(function_token(f) == "player-1"@);
            assert(function_from_token("player-1"@) == Some(LedFunction::Player1));
        },
        LedFunction::Player2 => {
            assert("player-2"@[0] != "capslock"@[0]);
            assert("player-2"@[0] != "charging"@[0]);
            assert("player-2"@[7] != "player-1"@[7]);
            assert(function_token(f) == "player-2"@);
            assert(function_from_token("player-2"@) == Some(LedFunction::Player2));
        },
        LedFunction::Player3 => {
            assert("player-3"@[0] != "capslock"@[0]);
            assert("player-3"@[0] != "charging"@[0]);
            assert("player-3"@[7] != "player-1"@[7]);
            assert("player-3"@[7] != "player-2"@[7]);
            assert(function_token(f) == "player-3"@);
            assert(function_from_token("player-3"@) == Some(LedFunction::Player3));
        },
        LedFunction::Player4 => {
            assert("player-4"@[0] != "capslock"@[0]);
            assert("player-4"@[0] != "charging"@[0]);
            assert("player-4"@[7] != "player-1"@[7]);
            assert("player-4"@[7] != "player-2"@[7]);
            assert("player-4"@[7] != "player-3"@[7]);
            assert(function_token(f) == "player-4"@);
            assert(function_from_token("player-4"@) == Some(LedFunction::Player4));
        },
        LedFunction::Player5 => {
            assert("player-5"@[0] != "capslock"@[0]);
            assert("player-5"@[0] != "charging"@[0]);
            assert("player-5"@[7] != "player-1"@[7]);
            assert("player-5"@[7] != "player-2"@[7]);
            assert("player-5"@[7] != "player-3"@[7]);
            assert("player-5"@[7] != "player-4"@[7]);
            assert(function_token(f) == "player-5"@);
            assert(function_from_token("player-5"@) == Some(LedFunction::Player5));
        },
        LedFunction::Activity => {
            assert("activity"@[0] != "capslock"@[0]);
            assert("activity"@[0] != "charging"@[0]);
            assert("activity"@[0] != "player-1"@[0]);
            assert("activity"@[0] != "player-2"@[0]);
            assert("activity"@[0] != "player-3"@[0]);
            assert("activity"@[0] != "player-4"@[0]);
            assert("activity"@[0] != "player-5"@[0]);
            assert(function_token(f) == "activity"@);
            assert(function_from_token("activity"@) == Some(LedFunction::Activity));
        },
        LedFunction::Alarm => {
            assert("alarm"@[0] != "power"@[0]);
            assert(function_token(f) == "alarm"@);
            assert(function_from_token("alarm"@) == Some(LedFunction::Alarm));
        },
        LedFunction::Backlight => {
            assert(function_token(f) == "backlight"@);
            assert(function_from_token("backlight"@) == Some(LedFunction::Backlight));
        },
        LedFunction::Bluetooth => {
            assert("bluetooth"@[1] != "backlight"@[1]);
            assert(function_token(f) == "bluetooth"@);
            assert(function_from_token("bluetooth"@) == Some(LedFunction::Bluetooth));
        },
        LedFunction::Boot => {
            assert("boot"@[0] != "disk"@[0]);
            assert("boot"@[0] != "mute"@[0]);
            assert(function_token(f) == "boot"@);
            assert(function_from_token("boot"@) == Some(LedFunction::Boot));
        },
        LedFunction::Cpu => {
            assert(function_token(f) == "cpu"@);
            assert(function_from_token("cpu"@) == Some(LedFunction::Cpu));
        },
        LedFunction::Debug => {
            assert("debug"@[0] != "power"@[0]);
            assert("debug"@[0] != "alarm"@[0]);
            assert(function_token(f) == "debug"@);
            assert(function_from_token("debug"@) == Some(LedFunction::Debug));
        },
        LedFunction::DiskActivity => {
            assert("disk-activity"@[0] != "kbd_backlight"@[0]);
            assert(function_token(f) == "disk-activity"@);
            assert(function_from_token("disk-activity"@) == Some(LedFunction::DiskActivity));
        },
        LedFunction::DiskErr => {
            assert("disk-err"@[0] != "capslock"@[0]);
            assert("disk-err"@[0] != "charging"@[0]);
            assert("disk-err"@[0] != "player-1"@[0]);
            assert("disk-err"@[0] != "player-2"@[0]);
            assert("disk-err"@[0] != "player-3"@[0]);
            assert("disk-err"@[0] != "player-4"@[0]);
            assert("disk-err"@[0] != "player-5"@[0]);
            assert("disk-err"@[0] != "activity"@[0]);
            assert(function_token(f) == "disk-err"@);
            assert(function_from_token("disk-err"@) == Some(LedFunction::DiskErr));
        },
        LedFunction::DiskRead => {
            assert("disk-read"@[0] != "backlight"@[0]);
            assert("disk-read"@[0] != "bluetooth"@[0]);
            assert(function_token(f) == "disk-read"@);
            assert(function_from_token("disk-read"@) == Some(LedFunction::DiskRead));
        },
        LedFunction::DiskWrite => {
            assert("disk-write"@[0] != "scrolllock"@[0]);
            assert(function_token(f) == "disk-write"@);
            assert(function_from_token("disk-write"@) == Some(LedFunction::DiskWrite));
        },
        LedFunction::Fault => {
            assert("fault"@[0] != "power"@[0]);
            assert("fault"@[0] != "alarm"@[0]);
            assert("fault"@[0] != "debug"@[0]);
            assert(function_token(f) == "fault"@);
            assert(function_from_token("fault"@) == Some(LedFunction::Fault));
        },
        LedFunction::Flash => {
            assert("flash"@[0] != "power"@[0]);
            assert("flash"@[0] != "alarm"@[0]);
            assert("flash"@[0] != "debug"@[0]);
            assert("flash"@[1] != "fault"@[1]);
            assert(function_token(f) == "flash"@);
            assert(function_from_token("flash"@) == Some(LedFunction::Flash));
        },
        LedFunction::Heartbeat => {
            assert("heartbeat"@[0] != "backlight"@[0]);
            assert("heartbeat"@[0] != "bluetooth"@[0]);
            assert("heartbeat"@[0] != "disk-read"@[0]);
            assert(function_token(f) == "heartbeat"@);
            assert(function_from_token("heartbeat"@) == Some(LedFunction::Heartbeat));
        },
        LedFunction::Indicator => {
            assert("indicator"@[0] != "backlight"@[0]);
            assert("indicator"@[0] != "bluetooth"@[0]);
            assert("indicator"@[0] != "disk-read"@[0]);
            assert("indicator"@[0] != "heartbeat"@[0]);
            assert(function_token(f) == "indicator"@);
            assert(function_from_token("indicator"@) == Some(LedFunction::Indicator));
        },
        LedFunction::Lan => {
            assert("lan"@[0] != "cpu"@[0]);
            assert(function_token(f) == "lan"@);
            assert(function_from_token("lan"@) == Some(LedFunction::Lan));
        },
        LedFunction::Mail => {
            assert("mail"@[0] != "disk"@[0]);
            assert("mail"@[1] != "mute"@[1]);
            assert("mail"@[0] != "boot"@[0]);
            assert(function_token(f) == "mail"@);
            assert(function_from_token("mail"@) == Some(LedFunction::Mail));
        },
        LedFunction::Mtd => {
            assert("mtd"@[0] != "cpu"@[0]);
            assert("mtd"@[0] != "lan"@[0]);
            assert(function_token(f) == "mtd"@);
            assert(function_from_token("mtd"@) == Some(LedFunction::Mtd));
        },
        LedFunction::Panic => {
            assert("panic"@[1] != "power"@[1]);
            assert("panic"@[0] != "alarm"@[0]);
            assert("panic"@[0] != "debug"@[0]);
            assert("panic"@[0] != "fault"@[0]);
            assert("panic"@[0] != "flash"@[0]);
            assert(function_token(f) == "panic"@);
            assert(function_from_token("panic"@) == Some(LedFunction::Panic));
        },
        LedFunction::Programming => {
            assert(function_token(f) == "programming"@);
            assert(function_from_token("programming"@) == Some(LedFunction::Programming));
        },
        LedFunction::Rx => {
            assert(function_token(f) == "rx"@);
            assert(function_from_token("rx"@) == Some(LedFunction::Rx));
        },
        LedFunction::Sd => {
            assert("sd"@[0] != "rx"@[0]);
            assert(function_token(f) == "sd"@);
            assert(function_from_token("sd"@) == Some(LedFunction::Sd));
        },
        LedFunction::Standby => {
            assert("standby"@[0] != "numlock"@[0]);
            assert("standby"@[0] != "micmute"@[0]);
            assert(function_token(f) == "standby"@);
            assert(function_from_token("standby"@) == Some(LedFunction::Standby));
        },
        LedFunction::Torch => {
            assert("torch"@[0] != "power"@[0]);
            assert("torch"@[0] != "alarm"@[0]);
            assert("torch"@[0] != "debug"@[0]);
            assert("torch"@[0] != "fault"@[0]);
            assert("torch"@[0] != "flash"@[0]);
            assert("torch"@[0] != "panic"@[0]);
            assert(function_token(f) == "torch"@);
            assert(function_from_token("torch"@) == Some(LedFunction::Torch));
        },
        LedFunction::Tx => {
            assert("tx"@[0] != "rx"@[0]);
            assert("tx"@[0] != "sd"@[0]);
            assert(function_token(f) == "tx"@);
            assert(function_from_token("tx"@) == Some(LedFunction::Tx));
        },
        LedFunction::Usb => {
            assert("usb"@[0] != "cpu"@[0]);
            assert("usb"@[0] != "lan"@[0]);
            assert("usb"@[0] != "mtd"@[0]);
            assert(function_token(f) == "usb"@);
            assert(function_from_token("usb"@) == Some(LedFunction::Usb));
        },
        LedFunction::Wan => {
            assert("wan"@[0] != "cpu"@[0]);
            assert("wan"@[0] != "lan"@[0]);
            assert("wan"@[0] != "mtd"@[0]);
            assert("wan"@[0] != "usb"@[0]);
            assert(function_token(f) == "wan"@);
            assert(function_from_token("wan"@) == Some(LedFunction::Wan));
        },
        LedFunction::Wlan => {
            assert("wlan"@[0] != "disk"@[0]);
            assert("wlan"@[0] != "mute"@[0]);
            assert("wlan"@[0] != "boot"@[0]);
            assert("wlan"@[0] != "mail"@[0]);
            assert(function_token(f) == "wlan"@);
            assert(function_from_token("wlan"@) == Some(LedFunction::Wlan));
        },
        LedFunction::Wps => {
            assert("wps"@[0] != "cpu"@[0]);
            assert("wps"@[0] != "lan"@[0]);
            assert("wps"@[0] != "mtd"@[0]);
            assert("wps"@[0] != "usb"@[0]);
            assert("wps"@[1] != "wan"@[1]);
            assert(function_token(f) == "wps"@);
            assert(function_from_token("wps"@) == Some(LedFunction::Wps));
        },
    }
}

/// A token recognised as a function is that function's canonical token.
pub proof fn lemma_function_token_exact(s: Seq<char>)
    ensures
        function_from_token(s) matches Some(f) ==> function_token(f) == s,
{
}

/// Structured identity of an LED device, derived purely from decomposing
/// the raw device name on `:`.
#[derive(Debug, Clone)]
pub struct LedInfo {
    /// The original full device name, always kept.
    pub device: String,
    /// Free-text identifier created by the kernel for the associated
    /// device, e.g. `phyN` for network devices or `inputN` for input
    /// devices.
    pub device_name: Option<String>,
    /// Colour tag, when a segment names one of the closed colour
    /// vocabulary.
    pub color: Option<LedColor>,
    /// Function tag, when a segment names one of the closed function
    /// vocabulary.
    pub function: Option<LedFunction>,
}

/// One step of the fallback scan over non-empty segments, left to right:
/// a segment naming a colour or a function sets that tag (a later match
/// replaces an earlier one); the first segment matching neither becomes the
/// device name and any further unmatched segment is dropped.
pub open spec fn scan_segments(
    segs: Seq<Seq<char>>,
    dn: Option<Seq<char>>,
    c: Option<LedColor>,
    f: Option<LedFunction>,
) -> (Option<Seq<char>>, Option<LedColor>, Option<LedFunction>)
    decreases segs.len(),
{
    if segs.len() == 0 {
        (dn, c, f)
    } else {
        let seg = segs[0];
        let rest = segs.drop_first();
        if color_from_token(seg) is Some {
            scan_segments(rest, dn, color_from_token(seg), f)
        } else if function_from_token(seg) is Some {
            scan_segments(rest, dn, c, function_from_token(seg))
        } else if dn is None {
            scan_segments(rest, Some(seg), c, f)
        } else {
            scan_segments(rest, dn, c, f)
        }
    }
}

/// What decomposing a raw device name yields: the non-empty `:`-separated
/// segments are taken positionally as name, colour and function when there
/// are exactly three of them (a failed vocabulary lookup is silently
/// discarded, not an error); any other segment count falls back to the
/// scan, because device names found in the wild deviate from the strict
/// three-part convention.
pub open spec fn parse_led_name(s: Seq<char>) -> (
    Option<Seq<char>>,
    Option<LedColor>,
    Option<LedFunction>,
) {
    let segs = name_segments(s);
    if segs.len() == 3 {
        (Some(segs[0]), color_from_token(segs[1]), function_from_token(segs[2]))
    } else {
        scan_segments(segs, None, None, None)
    }
}

/// The view of an optional owned string.
pub open spec fn opt_view(o: Option<String>) -> Option<Seq<char>> {
    match o {
        Some(x) => Some(x@),
        None => None,
    }
}

/// `info` holds exactly what parsing the raw name `s` describes.
pub open spec fn led_info_matches(info: LedInfo, s: Seq<char>) -> bool {
    &&& info.device@ == s
    &&& (opt_view(info.device_name), info.color, info.function) == parse_led_name(s)
}

impl LedInfo {
    /// Decompose a raw device name into its identity fields, as
    /// [`parse_led_name`] describes.  This never fails: unparsable parts
    /// are dropped and the full name is always kept in `device`.
    pub fn from_string(s: String) -> (r: LedInfo)
        ensures
            led_info_matches(r, s@),
    {
        let segs = split_segments(s.as_str());
        let n = segs.len();
        if n == 3 {
            proof {
                assert(views_of(segs@)[0] == segs@[0]@);
                assert(views_of(segs@)[1] == segs@[1]@);
                assert(views_of(segs@)[2] == segs@[2]@);
            }
            let device_name = Some(segs[0].clone());
            let color = LedColor::from_id(segs[1].as_str());
            let function = LedFunction::from_id(segs[2].as_str());
            LedInfo { device: s, device_name, color, function }
        } else {
            let mut device_name: Option<String> = None;
            let mut color: Option<LedColor> = None;
            let mut function: Option<LedFunction> = None;
            let mut i: usize = 0;
            proof {
                assert(views_of(segs@).subrange(0, n as int) =~= views_of(segs@));
            }
            while i < n
                invariant
                    n == segs@.len(),
                    n == views_of(segs@).len(),
                    0 <= i <= n,
                    scan_segments(views_of(segs@), None, None, None) == scan_segments(
                        views_of(segs@).subrange(i as int, n as int),
                        opt_view(device_name),
                        color,
                        function,
                    ),
                decreases n - i,
            {
                proof {
                    assert(views_of(segs@).subrange(i as int, n as int)[0] == segs@[i as int]@);
                    assert(views_of(segs@).subrange(i as int, n as int).drop_first()
                        =~= views_of(segs@).subrange(i + 1, n as int));
                }
                if let Some(c) = LedColor::from_id(segs[i].as_str()) {
                    color = Some(c);
                } else if let Some(f) = LedFunction::from_id(segs[i].as_str()) {
                    function = Some(f);
                } else if device_name.is_none() {
                    device_name = Some(segs[i].clone());
                }
                i += 1;
            }
            proof {
                assert(views_of(segs@).subrange(n as int, n as int)
                    =~= Seq::<Seq<char>>::empty());
            }
            LedInfo { device: s, device_name, color, function }
        }
    }
}

/// An ephemeral query descriptor used to select which directory entries to
/// materialise into full [`LedDevice`] records.  A populated field matches
/// an entry whose raw name contains it as a substring; the fields combine
/// as a disjunction, not a conjunction.
#[derive(Debug, Clone)]
pub struct LedFilterable {
    pub device_name: Option<String>,
    pub color: Option<LedColor>,
    pub function: Option<LedFunction>,
}

/// The filter's device-name substring is set and occurs in `name`.
pub open spec fn matches_device_name(f: LedFilterable, name: Seq<char>) -> bool {
    f.device_name matches Some(d) && contains_seq(name, d@)
}

/// The filter's colour is set and its token occurs in `name`.
pub open spec fn matches_color(f: LedFilterable, name: Seq<char>) -> bool {
    f.color matches Some(c) && contains_seq(name, color_token(c))
}

/// The filter's function is set and its token occurs in `name`.
pub open spec fn matches_function(f: LedFilterable, name: Seq<char>) -> bool {
    f.function matches Some(x) && contains_seq(name, function_token(x))
}

/// A filter matches a raw entry name when any populated field does.
pub open spec fn filter_matches(f: LedFilterable, name: Seq<char>) -> bool {
    matches_device_name(f, name) || matches_color(f, name) || matches_function(f, name)
}

/// Some filter in the list matches the raw entry name.
pub open spec fn any_filter_matches(filters: Seq<LedFilterable>, name: Seq<char>) -> bool {
    exists|i: int| 0 <= i < filters.len() && filter_matches(#[trigger] filters[i], name)
}

impl LedFilterable {
    /// A filter with no field populated; it matches nothing.
    pub fn new() -> (r: LedFilterable)
        ensures
            r.device_name is None,
            r.color is None,
            r.function is None,
    {
        LedFilterable { device_name: None, color: None, function: None }
    }

    /// The same filter with the device-name substring populated.
    pub fn with_device_name(self, device_name: String) -> (r: LedFilterable)
        ensures
            opt_view(r.device_name) == Some(device_name@),
            r.color == self.color,
            r.function == self.function,
    {
        LedFilterable { device_name: Some(device_name), ..self }
    }

    /// The same filter with the colour populated.
    pub fn with_color(self, color: LedColor) -> (r: LedFilterable)
        ensures
            r.device_name == self.device_name,
            r.color == Some(color),
            r.function == self.function,
    {
        LedFilterable { color: Some(color), ..self }
    }

    /// The same filter with the function populated.
    pub fn with_function(self, function: LedFunction) -> (r: LedFilterable)
        ensures
            r.device_name == self.device_name,
            r.color == self.color,
            r.function == Some(function),
    {
        LedFilterable { function: Some(function), ..self }
    }

    /// Finish building: the filter as constructed so far.
    pub fn finish(self) -> (r: LedFilterable)
        ensures
            r == self,
    {
        self
    }

    /// Does the device-name substring match this entry name?
    pub fn filter_by_device_name(&self, to_be_filtered: &str) -> (r: bool)
        ensures
            r == matches_device_name(*self, to_be_filtered@),
    {
        if let Some(device_name) = &self.device_name {
            str_contains(to_be_filtered, device_name.as_str())
        } else {
            false
        }
    }

    /// Does the colour token match this entry name?
    pub fn filter_by_color(&self, to_be_filtered: &str) -> (r: bool)
        ensures
            r == matches_color(*self, to_be_filtered@),
    {
        if let Some(color) = &self.color {
            str_contains(to_be_filtered, color.as_str())
        } else {
            false
        }
    }

    /// Does the function token match this entry name?
    pub fn filter_by_function(&self, pre_filter: &str) -> (r: bool)
        ensures
            r == matches_function(*self, pre_filter@),
    {
        if let Some(function) = &self.function {
            str_contains(pre_filter, function.as_str())
        } else {
            false
        }
    }

    /// Does any populated field match this entry name?
    pub fn filter(&self, to_be_filtered: &str) -> (r: bool)
        ensures
            r == filter_matches(*self, to_be_filtered@),
    {
        self.filter_by_device_name(to_be_filtered) || self.filter_by_color(to_be_filtered)
            || self.filter_by_function(to_be_filtered)
    }
}

/// Does any filter in the list match this entry name?
pub fn multi_filter_led(filters: &[LedFilterable], to_be_filtered: &str) -> (r: bool)
    ensures
        r == any_filter_matches(filters@, to_be_filtered@),
{
    let mut status = false;
    let n = filters.len();
    let mut i: usize = 0;
    while i < n
        invariant
            n == filters@.len(),
            0 <= i <= n,
            status == exists|j: int|
                0 <= j < i && filter_matches(#[trigger] filters@[j], to_be_filtered@),
        decreases n - i,
    {
        if filters[i].filter(to_be_filtered) {
            status = true;
        }
        i += 1;
    }
    status
}

/// Filter matching is a disjunction across the populated fields: a filter
/// with both a device-name substring and a colour set matches an entry
/// containing either, without requiring both.
pub proof fn lemma_filter_is_or(f: LedFilterable, name: Seq<char>)
    ensures
        filter_matches(f, name) == (matches_device_name(f, name) || matches_color(f, name)
            || matches_function(f, name)),
{
}

/// An LED device record, one per directory under the LED class root: the
/// parsed identity and the two brightness attributes LED devices expose.
/// Nothing is cached: every query re-reads the class directory picture it
/// is given.
#[derive(Debug, Clone)]
pub struct LedDevice {
    /// Identity parsed from the raw device name.
    pub info: LedInfo,
    /// Brightness read from the `brightness` attribute.  Most LEDs have no
    /// hardware brightness support and are simply lit for any non-zero
    /// value.
    pub brightness: u32,
    /// Maximum brightness read from the `max_brightness` attribute; an LED
    /// without distinct brightness levels reports 1.
    pub max_brightness: u32,
}

/// The outcome of looking one device up in an LED class directory: the two
/// attribute values, or the first failure the fixed reading order
/// (brightness, maximum) runs into.
pub enum LedLookup {
    /// The root or the device directory is absent.
    NotADevice,
    /// An attribute file is absent.
    MissingAttr { attr: SysBacklightInterface },
    /// An attribute file holds no valid non-negative integer.
    BadNumber { content: Seq<char> },
    /// Both attributes read and parsed.
    Found { brightness: u32, max: u32 },
}

/// What looking up device `name` under `root` yields.
pub open spec fn led_lookup(root: ClassDir, name: Seq<char>) -> LedLookup {
    if !device_listed(root, name) {
        LedLookup::NotADevice
    } else {
        match attr_text(root, name, SysBacklightInterface::Brightness) {
            None => LedLookup::MissingAttr { attr: SysBacklightInterface::Brightness },
            Some(btext) => match parse_u32_spec(btext) {
                None => LedLookup::BadNumber { content: btext },
                Some(brightness) => match attr_text(
                    root,
                    name,
                    SysBacklightInterface::MaxBrightness,
                ) {
                    None => LedLookup::MissingAttr { attr: SysBacklightInterface::MaxBrightness },
                    Some(mtext) => match parse_u32_spec(mtext) {
                        None => LedLookup::BadNumber { content: mtext },
                        Some(max) => LedLookup::Found { brightness, max },
                    },
                },
            },
        }
    }
}

/// `d` is exactly the record that looking `name` up under `root` describes.
pub open spec fn led_record_of(d: LedDevice, root: ClassDir, name: Seq<char>) -> bool {
    &&& led_lookup(root, name) matches LedLookup::Found { brightness, max }
    &&& d.brightness == brightness
    &&& d.max_brightness == max
    &&& led_info_matches(d.info, name)
}

/// `e` is exactly the error that looking `name` up under `root` describes.
pub open spec fn led_error_of(e: Error, root: ClassDir, name: Seq<char>) -> bool {
    match led_lookup(root, name) {
        LedLookup::NotADevice => e matches Error::InvalidDeviceName { device } && device@ == name,
        LedLookup::MissingAttr { attr } => e matches Error::Io { file } && file@ == attr_file_name(
            attr,
        ),
        LedLookup::BadNumber { content } => e matches Error::ParseBrightnessError { content: c }
            && c@ == content,
        LedLookup::Found { .. } => false,
    }
}

/// The first index at or after `i` in `names` whose device fails to look
/// up as an LED, or the number of names if every one from `i` on succeeds.
pub open spec fn first_bad_led(root: ClassDir, names: Seq<Seq<char>>, i: int) -> int
    decreases names.len() - i,
{
    if i < 0 || i >= names.len() {
        names.len() as int
    } else if !(led_lookup(root, names[i]) is Found) {
        i
    } else {
        first_bad_led(root, names, i + 1)
    }
}

proof fn lemma_first_bad_led_from(root: ClassDir, names: Seq<Seq<char>>, i: int)
    requires
        0 <= i <= names.len(),
        forall|j: int| 0 <= j < i ==> led_lookup(root, #[trigger] names[j]) is Found,
    ensures
        first_bad_led(root, names, 0) == first_bad_led(root, names, i),
    decreases i,
{
    if i > 0 {
        lemma_first_bad_led_from(root, names, i - 1);
    }
}

/// The raw names of the devices that `f` selects, in listing order.
pub open spec fn filtered_names(devices: Seq<DeviceDir>, f: LedFilterable) -> Seq<Seq<char>>
    decreases devices.len(),
{
    if devices.len() == 0 {
        Seq::empty()
    } else {
        let rest = filtered_names(devices.drop_last(), f);
        if filter_matches(f, devices.last().name@) {
            rest.push(devices.last().name@)
        } else {
            rest
        }
    }
}

/// The raw names of the devices that any filter in `fs` selects.
pub open spec fn multi_filtered_names(devices: Seq<DeviceDir>, fs: Seq<LedFilterable>) -> Seq<
    Seq<char>,
>
    decreases devices.len(),
{
    if devices.len() == 0 {
        Seq::empty()
    } else {
        let rest = multi_filtered_names(devices.drop_last(), fs);
        if any_filter_matches(fs, devices.last().name@) {
            rest.push(devices.last().name@)
        } else {
            rest
        }
    }
}

/// The raw names of all devices, in listing order.
pub open spec fn all_names(devices: Seq<DeviceDir>) -> Seq<Seq<char>>
    decreases devices.len(),
{
    if devices.len() == 0 {
        Seq::empty()
    } else {
        all_names(devices.drop_last()).push(devices.last().name@)
    }
}

/// Materialising a list of entry names succeeds record for record, or stops
/// at the first name whose device fails to look up.
pub open spec fn materialised(
    r: Result<Vec<LedDevice>, Error>,
    root: ClassDir,
    names: Seq<Seq<char>>,
) -> bool {
    let k = first_bad_led(root, names, 0);
    if k == names.len() {
        r matches Ok(v) && v@.len() == names.len() && forall|i: int|
            0 <= i < names.len() ==> led_record_of(#[trigger] v@[i], root, names[i])
    } else {
        r matches Err(e) && led_error_of(e, root, names[k])
    }
}

fn materialise_leds(root: &ClassDir, names: Vec<String>) -> (r: Result<Vec<LedDevice>, Error>)
    ensures
        materialised(r, *root, views_of(names@)),
{
    let mut leds: Vec<LedDevice> = Vec::new();
    let n = names.len();
    let mut i: usize = 0;
    while i < n
        invariant
            n == names@.len(),
            n == views_of(names@).len(),
            0 <= i <= n,
            leds@.len() == i,
            forall|j: int|
                0 <= j < i ==> led_lookup(*root, #[trigger] views_of(names@)[j]) is Found,
            forall|j: int|
                0 <= j < i ==> led_record_of(#[trigger] leds@[j], *root, views_of(names@)[j]),
        decreases n - i,
    {
        proof {
            assert(views_of(names@)[i as int] == names@[i as int]@);
        }
        match LedDevice::get_led_device(root, names[i].clone()) {
            Ok(dev) => leds.push(dev),
            Err(e) => {
                proof {
                    lemma_first_bad_led_from(*root, views_of(names@), i as int);
                }
                return Err(e);
            },
        }
        i += 1;
    }
    proof {
        lemma_first_bad_led_from(*root, views_of(names@), n as int);
    }
    Ok(leds)
}

impl LedDevice {
    /// The record's numbers respect the device-class contract: the
    /// brightness never exceeds the maximum.  The kernel promises this of
    /// the attribute files; the picture handed in may of course break it,
    /// so nothing here assumes it.
    pub open spec fn wf(self) -> bool {
        self.brightness <= self.max_brightness
    }

    /// Look up the LED called `device` in the picture of the LED class
    /// directory: read and parse its two brightness attributes and parse
    /// its name into identity fields.
    pub fn get_led_device(root: &ClassDir, device: String) -> (r: Result<LedDevice, Error>)
        ensures
            match r {
                Ok(d) => led_record_of(d, *root, device@),
                Err(e) => !(led_lookup(*root, device@) is Found) && led_error_of(
                    e,
                    *root,
                    device@,
                ),
            },
    {
        if !contains_device(root, device.as_str()) {
            return Err(Error::InvalidDeviceName { device });
        }
        let btext = match read_sys_led(root, device.as_str(), SysBacklightInterface::Brightness) {
            Ok(s) => s,
            Err(e) => { return Err(e) },
        };
        let brightness = match parse_u32(btext.as_str()) {
            Some(v) => v,
            None => { return Err(Error::ParseBrightnessError { content: btext }) },
        };
        let mtext = match read_sys_led(
            root,
            device.as_str(),
            SysBacklightInterface::MaxBrightness,
        ) {
            Ok(s) => s,
            Err(e) => { return Err(e) },
        };
        let max_brightness = match parse_u32(mtext.as_str()) {
            Some(v) => v,
            None => { return Err(Error::ParseBrightnessError { content: mtext }) },
        };
        let info = LedInfo::from_string(device);
        Ok(LedDevice { info, brightness, max_brightness })
    }

    /// Every LED whose raw entry name `f` selects, in listing order.  An
    /// absent root yields an empty collection, not an error; a failure
    /// materialising any selected entry aborts the whole call.
    pub fn get_led_devices_with_filter(root: &ClassDir, f: LedFilterable) -> (r: Result<
        Vec<LedDevice>,
        Error,
    >)
        ensures
            !root.present ==> (r matches Ok(v) && v@.len() == 0),
            root.present ==> materialised(r, *root, filtered_names(root.devices@, f)),
    {
        if !root.present {
            return Ok(Vec::new());
        }
        let mut names: Vec<String> = Vec::new();
        let n = root.devices.len();
        let mut i: usize = 0;
        proof {
            assert(root.devices@.take(0) =~= Seq::<DeviceDir>::empty());
        }
        while i < n
            invariant
                n == root.devices@.len(),
                0 <= i <= n,
                views_of(names@) == filtered_names(root.devices@.take(i as int), f),
            decreases n - i,
        {
            proof {
                assert(root.devices@.take(i + 1).drop_last() =~= root.devices@.take(i as int));
                assert(root.devices@.take(i + 1).last() == root.devices@[i as int]);
            }
            if f.filter(root.devices[i].name.as_str()) {
                let name = root.devices[i].name.clone();
                proof {
                    assert(views_of(names@.push(name)) =~= views_of(names@).push(name@));
                }
                names.push(name);
            }
            i += 1;
        }
        proof {
            assert(root.devices@.take(n as int) =~= root.devices@);
        }
        materialise_leds(root, names)
    }

    /// Every LED whose raw entry name any filter in `f` selects, in
    /// listing order; otherwise as [`LedDevice::get_led_devices_with_filter`].
    pub fn get_led_devices_with_multi_filter(root: &ClassDir, f: &[LedFilterable]) -> (r: Result<
        Vec<LedDevice>,
        Error,
    >)
        ensures
            !root.present ==> (r matches Ok(v) && v@.len() == 0),
            root.present ==> materialised(r, *root, multi_filtered_names(root.devices@, f@)),
    {
        if !root.present {
            return Ok(Vec::new());
        }
        let mut names: Vec<String> = Vec::new();
        let n = root.devices.len();
        let mut i: usize = 0;
        proof {
            assert(root.devices@.take(0) =~= Seq::<DeviceDir>::empty());
        }
        while i < n
            invariant
                n == root.devices@.len(),
                0 <= i <= n,
                views_of(names@) == multi_filtered_names(root.devices@.take(i as int), f@),
            decreases n - i,
        {
            proof {
                assert(root.devices@.take(i + 1).drop_last() =~= root.devices@.take(i as int));
                assert(root.devices@.take(i + 1).last() == root.devices@[i as int]);
            }
            if multi_filter_led(f, root.devices[i].name.as_str()) {
                let name = root.devices[i].name.clone();
                proof {
                    assert(views_of(names@.push(name)) =~= views_of(names@).push(name@));
                }
                names.push(name);
            }
            i += 1;
        }
        proof {
            assert(root.devices@.take(n as int) =~= root.devices@);
        }
        materialise_leds(root, names)
    }

    /// Every LED under the LED class root, in listing order.  An absent
    /// root yields an empty collection, not an error; the first per-device
    /// failure aborts the whole enumeration.
    pub fn get_all_led_devices(root: &ClassDir) -> (r: Result<Vec<LedDevice>, Error>)
        ensures
            !root.present ==> (r matches Ok(v) && v@.len() == 0),
            root.present ==> materialised(r, *root, all_names(root.devices@)),
    {
        if !root.present {
            return Ok(Vec::new());
        }
        let mut names: Vec<String> = Vec::new();
        let n = root.devices.len();
        let mut i: usize = 0;
        proof {
            assert(root.devices@.take(0) =~= Seq::<DeviceDir>::empty());
        }
        while i < n
            invariant
                n == root.devices@.len(),
                0 <= i <= n,
                views_of(names@) == all_names(root.devices@.take(i as int)),
            decreases n - i,
        {
            proof {
                assert(root.devices@.take(i + 1).drop_last() =~= root.devices@.take(i as int));
                assert(root.devices@.take(i + 1).last() == root.devices@[i as int]);
            }
            let name = root.devices[i].name.clone();
            proof {
                assert(views_of(names@.push(name)) =~= views_of(names@).push(name@));
            }
            names.push(name);
            i += 1;
        }
        proof {
            assert(root.devices@.take(n as int) =~= root.devices@);
        }
        materialise_leds(root, names)
    }

    /// Every keyboard-backlight LED: sugar for a filter fixed to the
    /// keyboard-backlight function.
    pub fn get_all_keyboard_devices(root: &ClassDir) -> (r: Result<Vec<LedDevice>, Error>)
        ensures
            !root.present ==> (r matches Ok(v) && v@.len() == 0),
            root.present ==> materialised(
                r,
                *root,
                filtered_names(
                    root.devices@,
                    LedFilterable {
                        device_name: None,
                        color: None,
                        function: Some(LedFunction::KbdBacklight),
                    },
                ),
            ),
    {
        LedDevice::get_led_devices_with_filter(
            root,
            LedFilterable {
                device_name: None,
                color: None,
                function: Some(LedFunction::KbdBacklight),
            },
        )
    }

    /// Raw name of the LED's device directory.
    pub fn get_device_name(&self) -> (r: &str)
        ensures
            r@ == self.info.device@,
    {
        self.info.device.as_str()
    }

    /// Brightness of the LED.
    pub fn get_brightness(&self) -> (r: u32)
        ensures
            r == self.brightness,
    {
        self.brightness
    }

    /// Maximum brightness of the LED.
    pub fn get_max_brightness(&self) -> (r: u32)
        ensures
            r == self.max_brightness,
    {
        self.max_brightness
    }

    /// Decide a brightness change for this LED.  A level above the
    /// device's maximum is refused outright — no command is produced, so no
    /// backend ever writes in that case.  Otherwise the returned command
    /// names the LED subsystem, this device and the level, with the decimal
    /// payload the direct-write backend puts in the `brightness` file.
    pub fn set_brightness(&self, level: u32) -> (r: Result<BrightnessCommand, Error>)
        ensures
            level > self.max_brightness ==> (r matches Err(e) && e
                matches Error::InvalidBrightnessLevel { given, max } && given == level && max
                == self.max_brightness),
            level <= self.max_brightness ==> (r matches Ok(c) && c.wf() && c.subsystem
                == Subsystem::Leds && c.device@ == self.info.device@ && c.level == level),
    {
        if level <= self.max_brightness {
            Ok(BrightnessCommand::new(Subsystem::Leds, self.info.device.as_str(), level))
        } else {
            Err(Error::InvalidBrightnessLevel { given: level, max: self.max_brightness })
        }
    }
}


/// Canonical colour tokens are non-empty and hold no name separator.
proof fn lemma_color_token_plain(c: LedColor)
    ensures
        color_token(c).len() > 0,
        forall|i: int| 0 <= i < color_token(c).len() ==> color_token(c)[i] != ':',
{
    match c {
        LedColor::White => {
            reveal_strlit("white");
            assert("white"@.len() == 5);
            assert(forall|i: int| 0 <= i < color_token(c).len() ==> color_token(c)[i] != ':');
        },
        LedColor::Red => {
            reveal_strlit("red");
            assert("red"@.len() == 3);
            assert(forall|i: int| 0 <= i < color_token(c).len() ==> color_token(c)[i] != ':');
        },
        LedColor::Green => {
            reveal_strlit("green");
            assert("green"@.len() == 5);
            assert(forall|i: int| 0 <= i < color_token(c).len() ==> color_token(c)[i] != ':');
        },
        LedColor::Blue => {
            reveal_strlit("blue");
            assert("blue"@.len() == 4);
            assert(forall|i: int| 0 <= i < color_token(c).len() ==> color_token(c)[i] != ':');
        },
        LedColor::Amber => {
            reveal_strlit("amber");
            assert("amber"@.len() == 5);
            assert(forall|i: int| 0 <= i < color_token(c).len() ==> color_token(c)[i] != ':');
        },
        LedColor::Violet => {
            reveal_strlit("violet");
            assert("violet"@.len() == 6);
            assert(forall|i: int| 0 <= i < color_token(c).len() ==> color_token(c)[i] != ':');
        },
        LedColor::Yellow => {
            reveal_strlit("yellow");
            assert("yellow"@.len() == 6);
            assert(forall|i: int| 0 <= i < color_token(c).len() ==> color_token(c)[i] != ':');
        },
        LedColor::Ir => {
            reveal_strlit("ir");
            assert("ir"@.len() == 2);
            assert(forall|i: int| 0 <= i < color_token(c).len() ==> color_token(c)[i] != ':');
        },
        LedColor::Multi => {
            reveal_strlit("multi");
            assert("multi"@.len() == 5);
            assert(forall|i: int| 0 <= i < color_token(c).len() ==> color_token(c)[i] != ':');
        },
        LedColor::Rgb => {
            reveal_strlit("rgb");
            assert("rgb"@.len() == 3);
            assert(forall|i: int| 0 <= i < color_token(c).len() ==> color_token(c)[i] != ':');
        },
        LedColor::Max => {
            reveal_strlit("max");
            assert("max"@.len() == 3);
            assert(forall|i: int| 0 <= i < color_token(c).len() ==> color_token(c)[i] != ':');
        },
    }
}

/// Canonical function tokens are non-empty and hold no name separator.
proof fn lemma_function_token_plain(f: LedFunction)
    ensures
        function_token(f).len() > 0,
        forall|i: int| 0 <= i < function_token(f).len() ==> function_token(f)[i] != ':',
{
    match f {
        LedFunction::CapsLock => {
            reveal_strlit("capslock");
            assert("capslock"@.len() == 8);
            assert(forall|i: int| 0 <= i < function_token(f).len() ==> function_token(f)[i] != ':');
        },
        LedFunction::ScrollLock => {
            reveal_strlit("scrolllock");
            assert("scrolllock"@.len() == 10);
            assert(forall|i: int| 0 <= i < function_token(f).len() ==> function_token(f)[i] != ':');
        },
        LedFunction::NumLock => {
            reveal_strlit("numlock");
            assert("numlock"@.len() == 7);
            assert(forall|i: int| 0 <= i < function_token(f).len() ==> function_token(f)[i] != ':');
        },
        LedFunction::KbdBacklight => {
            reveal_strlit("kbd_backlight");
            assert("kbd_backlight"@.len() == 13);
            assert(forall|i: int| 0 <= i < function_token(f).len() ==> function_token(f)[i] != ':');
        },
        LedFunction::Power => {
            reveal_strlit("power");
            assert("power"@.len() == 5);
            assert(forall|i: int| 0 <= i < function_token(f).len() ==> function_token(f)[i] != ':');
        },
        LedFunction::Disk => {
            reveal_strlit("disk");
            assert("disk"@.len() == 4);
            assert(forall|i: int| 0 <= i < function_token(f).len() ==> function_token(f)[i] != ':');
        },
        LedFunction::Charging => {
            reveal_strlit("charging");
            assert("charging"@.len() == 8);
            assert(forall|i: int| 0 <= i < function_token(f).len() ==> function_token(f)[i] != ':');
        },
        LedFunction::Status => {
            reveal_strlit("status");
            assert("status"@.len() == 6);
            assert(forall|i: int| 0 <= i < function_token(f).len() ==> function_token(f)[i] != ':');
        },
        LedFunction::MicMute => {
            reveal_strlit("micmute");
            assert("micmute"@.len() == 7);
            assert(forall|i: int| 0 <= i < function_token(f).len() ==> function_token(f)[i] != ':');
        },
        LedFunction::Mute => {
            reveal_strlit("mute");
            assert("mute"@.len() == 4);
            assert(forall|i: int| 0 <= i < function_token(f).len() ==> function_token(f)[i] != ':');
        },
        LedFunction::Player1 => {
            reveal_strlit("player-1");
            assert("player-1"@.len() == 8);
            assert(forall|i: int| 0 <= i < function_token(f).len() ==> function_token(f)[i] != ':');
        },
        LedFunction::Player2 => {
            reveal_strlit("player-2");
            assert("player-2"@.len() == 8);
            assert(forall|i: int| 0 <= i < function_token(f).len() ==> function_token(f)[i] != ':');
        },
        LedFunction::Player3 => {
            reveal_strlit("player-3");
            assert("player-3"@.len() == 8);
            assert(forall|i: int| 0 <= i < function_token(f).len() ==> function_token(f)[i] != ':');
        },
        LedFunction::Player4 => {
            reveal_strlit("player-4");
            assert("player-4"@.len() == 8);
            assert(forall|i: int| 0 <= i < function_token(f).len() ==> function_token(f)[i] != ':');
        },
        LedFunction::Player5 => {
            reveal_strlit("player-5");
            assert("player-5"@.len() == 8);
            assert(forall|i: int| 0 <= i < function_token(f).len() ==> function_token(f)[i] != ':');
        },
        LedFunction::Activity => {
            reveal_strlit("activity");
            assert("activity"@.len() == 8);
            assert(forall|i: int| 0 <= i < function_token(f).len() ==> function_token(f)[i] != ':');
        },
        LedFunction::Alarm => {
            reveal_strlit("alarm");
            assert("alarm"@.len() == 5);
            assert(forall|i: int| 0 <= i < function_token(f).len() ==> function_token(f)[i] != ':');
        },
        LedFunction::Backlight => {
            reveal_strlit("backlight");
            assert("backlight"@.len() == 9);
            assert(forall|i: int| 0 <= i < function_token(f).len() ==> function_token(f)[i] != ':');
        },
        LedFunction::Bluetooth => {
            reveal_strlit("bluetooth");
            assert("bluetooth"@.len() == 9);
            assert(forall|i: int| 0 <= i < function_token(f).len() ==> function_token(f)[i] != ':');
        },
        LedFunction::Boot => {
            reveal_strlit("boot");
            assert("boot"@.len() == 4);
            assert(forall|i: int| 0 <= i < function_token(f).len() ==> function_token(f)[i] != ':');
        },
        LedFunction::Cpu => {
            reveal_strlit("cpu");
            assert("cpu"@.len() == 3);
            assert(forall|i: int| 0 <= i < function_token(f).len() ==> function_token(f)[i] != ':');
        },
        LedFunction::Debug => {
            reveal_strlit("debug");
            assert("debug"@.len() == 5);
            assert(forall|i: int| 0 <= i < function_token(f).len() ==> function_token(f)[i] != ':');
        },
        LedFunction::DiskActivity => {
            reveal_strlit("disk-activity");
            assert("disk-activity"@.len() == 13);
            assert(forall|i: int| 0 <= i < function_token(f).len() ==> function_token(f)[i] != ':');
        },
        LedFunction::DiskErr => {
            reveal_strlit("disk-err");
            assert("disk-err"@.len() == 8);
            assert(forall|i: int| 0 <= i < function_token(f).len() ==> function_token(f)[i] != ':');
        },
        LedFunction::DiskRead => {
            reveal_strlit("disk-read");
            assert("disk-read"@.len() == 9);
            assert(forall|i: int| 0 <= i < function_token(f).len() ==> function_token(f)[i] != ':');
        },
        LedFunction::DiskWrite => {
            reveal_strlit("disk-write");
            assert("disk-write"@.len() == 10);
            assert(forall|i: int| 0 <= i < function_token(f).len() ==> function_token(f)[i] != ':');
        },
        LedFunction::Fault => {
            reveal_strlit("fault");
            assert("fault"@.len() == 5);
            assert(forall|i: int| 0 <= i < function_token(f).len() ==> function_token(f)[i] != ':');
        },
        LedFunction::Flash => {
            reveal_strlit("flash");
            assert("flash"@.len() == 5);
            assert(forall|i: int| 0 <= i < function_token(f).len() ==> function_token(f)[i] != ':');
        },
        LedFunction::Heartbeat => {
            reveal_strlit("heartbeat");
            assert("heartbeat"@.len() == 9);
            assert(forall|i: int| 0 <= i < function_token(f).len() ==> function_token(f)[i] != ':');
        },
        LedFunction::Indicator => {
            reveal_strlit("indicator");
            assert("indicator"@.len() == 9);
            assert(forall|i: int| 0 <= i < function_token(f).len() ==> function_token(f)[i] != ':');
        },
        LedFunction::Lan => {
            reveal_strlit("lan");
            assert("lan"@.len() == 3);
            assert(forall|i: int| 0 <= i < function_token(f).len() ==> function_token(f)[i] != ':');
        },
        LedFunction::Mail => {
            reveal_strlit("mail");
            assert("mail"@.len() == 4);
            assert(forall|i: int| 0 <= i < function_token(f).len() ==> function_token(f)[i] != ':');
        },
        LedFunction::Mtd => {
            reveal_strlit("mtd");
            assert("mtd"@.len() == 3);
            assert(forall|i: int| 0 <= i < function_token(f).len() ==> function_token(f)[i] != ':');
        },
        LedFunction::Panic => {
            reveal_strlit("panic");
            assert("panic"@.len() == 5);
            assert(forall|i: int| 0 <= i < function_token(f).len() ==> function_token(f)[i] != ':');
        },
        LedFunction::Programming => {
            reveal_strlit("programming");
            assert("programming"@.len() == 11);
            assert(forall|i: int| 0 <= i < function_token(f).len() ==> function_token(f)[i] != ':');
        },
        LedFunction::Rx => {
            reveal_strlit("rx");
            assert("rx"@.len() == 2);
            assert(forall|i: int| 0 <= i < function_token(f).len() ==> function_token(f)[i] != ':');
        },
        LedFunction::Sd => {
            reveal_strlit("sd");
            assert("sd"@.len() == 2);
            assert(forall|i: int| 0 <= i < function_token(f).len() ==> function_token(f)[i] != ':');
        },
        LedFunction::Standby => {
            reveal_strlit("standby");
            assert("standby"@.len() == 7);
            assert(forall|i: int| 0 <= i < function_token(f).len() ==> function_token(f)[i] != ':');
        },
        LedFunction::Torch => {
            reveal_strlit("torch");
            assert("torch"@.len() == 5);
            assert(forall|i: int| 0 <= i < function_token(f).len() ==> function_token(f)[i] != ':');
        },
        LedFunction::Tx => {
            reveal_strlit("tx");
            assert("tx"@.len() == 2);
            assert(forall|i: int| 0 <= i < function_token(f).len() ==> function_token(f)[i] != ':');
        },
        LedFunction::Usb => {
            reveal_strlit("usb");
            assert("usb"@.len() == 3);
            assert(forall|i: int| 0 <= i < function_token(f).len() ==> function_token(f)[i] != ':');
        },
        LedFunction::Wan => {
            reveal_strlit("wan");
            assert("wan"@.len() == 3);
            assert(forall|i: int| 0 <= i < function_token(f).len() ==> function_token(f)[i] != ':');
        },
        LedFunction::Wlan => {
            reveal_strlit("wlan");
            assert("wlan"@.len() == 4);
            assert(forall|i: int| 0 <= i < function_token(f).len() ==> function_token(f)[i] != ':');
        },
        LedFunction::Wps => {
            reveal_strlit("wps");
            assert("wps"@.len() == 3);
            assert(forall|i: int| 0 <= i < function_token(f).len() ==> function_token(f)[i] != ':');
        },
    }
}

/// For a strict three-part name `device:colour:function` built from a
/// non-empty, separator-free device identifier and canonical tokens,
/// parsing recovers exactly those three fields, and the colour and
/// function stringify back to the very tokens in the name.
pub proof fn lemma_parse_three_segments(dn: Seq<char>, c: LedColor, f: LedFunction)
    requires
        dn.len() > 0,
        forall|i: int| 0 <= i < dn.len() ==> dn[i] != ':',
    ensures
        parse_led_name(dn + seq![':'] + color_token(c) + seq![':'] + function_token(f)) == (
            Some(dn),
            Some(c),
            Some(f),
        ),
{
    let ct = color_token(c);
    let ft = function_token(f);
    let s = dn + seq![':'] + ct + seq![':'] + ft;
    lemma_color_token_plain(c);
    lemma_function_token_plain(f);
    assert(s =~= dn + seq![':'] + (ct + seq![':'] + ft));
    crate::text::lemma_split_colon_concat(dn, ct + seq![':'] + ft);
    crate::text::lemma_split_colon_concat(ct, ft);
    crate::text::lemma_split_colon_whole(dn);
    crate::text::lemma_split_colon_whole(ct);
    crate::text::lemma_split_colon_whole(ft);
    assert(crate::text::split_colon(s) =~= seq![dn, ct, ft]);
    assert(seq![dn, ct, ft].drop_last() =~= seq![dn, ct]);
    assert(seq![dn, ct].drop_last() =~= seq![dn]);
    assert(seq![dn].drop_last() =~= Seq::<Seq<char>>::empty());
    assert(crate::text::drop_empty(Seq::<Seq<char>>::empty()) =~= Seq::<Seq<char>>::empty());
    assert(Seq::<Seq<char>>::empty().push(dn) =~= seq![dn]);
    assert(crate::text::drop_empty(seq![dn]) =~= seq![dn]);
    assert(seq![dn].push(ct) =~= seq![dn, ct]);
    assert(crate::text::drop_empty(seq![dn, ct]) =~= seq![dn, ct]);
    assert(seq![dn, ct].push(ft) =~= seq![dn, ct, ft]);
    assert(crate::text::drop_empty(seq![dn, ct, ft]) =~= seq![dn, ct, ft]);
    assert(name_segments(s) == seq![dn, ct, ft]);
    lemma_color_round_trip(c);
    lemma_function_round_trip(f);
}

/// For a name without any separator, the fallback scan decides the whole
/// outcome: a canonical colour token becomes the colour, a canonical
/// function token becomes the function, and any other text becomes the
/// device name; the other fields stay empty.
pub proof fn lemma_parse_single_segment(s: Seq<char>)
    requires
        s.len() > 0,
        forall|i: int| 0 <= i < s.len() ==> s[i] != ':',
    ensures
        color_from_token(s) is Some ==> parse_led_name(s) == (
            Option::<Seq<char>>::None,
            color_from_token(s),
            Option::<LedFunction>::None,
        ),
        color_from_token(s) is None && function_from_token(s) is Some ==> parse_led_name(s) == (
            Option::<Seq<char>>::None,
            Option::<LedColor>::None,
            function_from_token(s),
        ),
        color_from_token(s) is None && function_from_token(s) is None ==> parse_led_name(s) == (
            Some(s),
            Option::<LedColor>::None,
            Option::<LedFunction>::None,
        ),
{
    crate::text::lemma_split_colon_whole(s);
    assert(seq![s].drop_last() =~= Seq::<Seq<char>>::empty());
    assert(Seq::<Seq<char>>::empty().push(s) =~= seq![s]);
    assert(crate::text::drop_empty(Seq::<Seq<char>>::empty()) =~= Seq::<Seq<char>>::empty());
    assert(crate::text::drop_empty(seq![s]) =~= seq![s]);
    assert(name_segments(s) == seq![s]);
    assert(seq![s].drop_first() =~= Seq::<Seq<char>>::empty());
    reveal_with_fuel(scan_segments, 3);
}

} // verus!
