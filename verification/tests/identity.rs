//! The identity parser and the two closed vocabularies.

use bulbb::misc::{LedColor, LedFunction, LedInfo};

#[test]
fn parse_led_device_names() {
    let devices = vec![
        "asus::kbd_backlight",
        "input13::capslock",
        "input13::compose",
        "input13::kana",
        "input13::numlock",
        "input13::scrolllock",
        "input2::capslock",
        "input2::numlock",
        "input2::scrolllock",
        "phy0-led",
    ];
    for dev in devices {
        let led_info = LedInfo::from_string(dev.to_string());
        let led_c = if let Some(c) = led_info.color {
            c.to_string()
        } else {
            String::from("")
        };
        let led_f = if let Some(f) = led_info.function {
            f.to_string()
        } else {
            String::from("")
        };

        println!(
            "Device: {}\nDevice Name: {}\nColor: {}\nFunction: {}\n",
            led_info.device,
            led_info.device_name.unwrap_or_else(|| String::from("")),
            led_c,
            led_f
        )
    }
}

#[test]
fn parse_three_segment_name() {
    let info = LedInfo::from_string("dev0:green:power".to_string());
    assert_eq!(info.device, "dev0:green:power");
    assert_eq!(info.device_name, Some("dev0".to_string()));
    assert_eq!(info.color, Some(LedColor::Green));
    assert_eq!(info.function, Some(LedFunction::Power));
    assert_eq!(info.color.unwrap().to_string(), "green");
    assert_eq!(info.function.unwrap().to_string(), "power");
}

#[test]
fn parse_kbd_backlight_name() {
    let info = LedInfo::from_string("asus::kbd_backlight".to_string());
    assert_eq!(info.device, "asus::kbd_backlight");
    assert_eq!(info.device_name, Some("asus".to_string()));
    assert_eq!(info.color, None);
    assert_eq!(info.function, Some(LedFunction::KbdBacklight));
}

#[test]
fn parse_bare_names() {
    let plain = LedInfo::from_string("phy0-led".to_string());
    assert_eq!(plain.device_name, Some("phy0-led".to_string()));
    assert_eq!(plain.color, None);
    assert_eq!(plain.function, None);

    let colour_only = LedInfo::from_string("red".to_string());
    assert_eq!(colour_only.device_name, None);
    assert_eq!(colour_only.color, Some(LedColor::Red));
    assert_eq!(colour_only.function, None);

    let function_only = LedInfo::from_string("capslock".to_string());
    assert_eq!(function_only.device_name, None);
    assert_eq!(function_only.color, None);
    assert_eq!(function_only.function, Some(LedFunction::CapsLock));
}

#[test]
fn parse_two_segment_scan() {
    let info = LedInfo::from_string("input13::scrolllock".to_string());
    assert_eq!(info.device_name, Some("input13".to_string()));
    assert_eq!(info.color, None);
    assert_eq!(info.function, Some(LedFunction::ScrollLock));
}

#[test]
fn parse_empty_name() {
    let info = LedInfo::from_string(String::new());
    assert_eq!(info.device, "");
    assert_eq!(info.device_name, None);
    assert_eq!(info.color, None);
    assert_eq!(info.function, None);
}

#[test]
fn color_round_trips() {
    let colors = vec![
        LedColor::White,
        LedColor::Red,
        LedColor::Green,
        LedColor::Blue,
        LedColor::Amber,
        LedColor::Violet,
        LedColor::Yellow,
        LedColor::Ir,
        LedColor::Multi,
        LedColor::Rgb,
        LedColor::Max,
    ];
    for c in colors {
        assert_eq!(LedColor::from_id(&c.to_string()), Some(c));
    }
    assert_eq!(LedColor::from_id("Red"), None);
    assert_eq!(LedColor::from_id("WHITE"), None);
    assert_eq!(LedColor::from_id(""), None);
    assert_eq!(LedColor::from_id("reddish"), None);
}

#[test]
fn function_round_trips() {
    let functions = vec![
        LedFunction::CapsLock,
        LedFunction::ScrollLock,
        LedFunction::NumLock,
        LedFunction::KbdBacklight,
        LedFunction::Power,
        LedFunction::Disk,
        LedFunction::Charging,
        LedFunction::Status,
        LedFunction::MicMute,
        LedFunction::Mute,
        LedFunction::Player1,
        LedFunction::Player2,
        LedFunction::Player3,
        LedFunction::Player4,
        LedFunction::Player5,
        LedFunction::Activity,
        LedFunction::Alarm,
        LedFunction::Backlight,
        LedFunction::Bluetooth,
        LedFunction::Boot,
        LedFunction::Cpu,
        LedFunction::Debug,
        LedFunction::DiskActivity,
        LedFunction::DiskErr,
        LedFunction::DiskRead,
        LedFunction::DiskWrite,
        LedFunction::Fault,
        LedFunction::Flash,
        LedFunction::Heartbeat,
        LedFunction::Indicator,
        LedFunction::Lan,
        LedFunction::Mail,
        LedFunction::Mtd,
        LedFunction::Panic,
        LedFunction::Programming,
        LedFunction::Rx,
        LedFunction::Sd,
        LedFunction::Standby,
        LedFunction::Torch,
        LedFunction::Tx,
        LedFunction::Usb,
        LedFunction::Wan,
        LedFunction::Wlan,
        LedFunction::Wps,
    ];
    for f in functions {
        assert_eq!(LedFunction::from_id(&f.to_string()), Some(f));
    }
    assert_eq!(LedFunction::from_id("CapsLock"), None);
    assert_eq!(LedFunction::from_id("player-6"), None);
    assert_eq!(LedFunction::from_id(""), None);
    assert_eq!(LedFunction::from_id("kbd backlight"), None);
}
