//! LED directory operations over an in-memory class directory picture.

use bulbb::error::Error;
use bulbb::misc::{LedColor, LedDevice, LedFilterable, LedFunction};
use bulbb::sysfs::{AttrFile, ClassDir, DeviceDir, Subsystem, SysBacklightInterface};

fn led_dir(name: &str, brightness: &str, max_brightness: &str) -> DeviceDir {
    DeviceDir {
        name: name.to_string(),
        attrs: vec![
            AttrFile {
                attr: SysBacklightInterface::Brightness,
                content: brightness.to_string(),
            },
            AttrFile {
                attr: SysBacklightInterface::MaxBrightness,
                content: max_brightness.to_string(),
            },
        ],
    }
}

#[test]
fn filter() {
    let filter1 = LedFilterable {
        device_name: Some("dev".to_string()),
        color: None,
        function: None,
    };

    let filter2 = LedFilterable::new()
        .with_device_name("dev".to_string())
        .finish();
    assert_eq!(filter1.device_name, filter2.device_name);
    assert_eq!(filter1.color.is_none(), filter2.color.is_none());
    assert_eq!(filter1.function.is_none(), filter2.function.is_none());
}

#[test]
fn filter_is_or_not_and() {
    let f = LedFilterable {
        device_name: Some("asus".to_string()),
        color: Some(LedColor::Blue),
        function: None,
    };
    // Contains the device-name substring but not the colour token.
    assert!(f.filter("asus::kbd_backlight"));
    // Contains the colour token but not the device-name substring.
    assert!(f.filter("lamp:blue:power"));
    // Contains neither.
    assert!(!f.filter("input2::capslock"));
}

#[test]
fn filter_with_no_fields_matches_nothing() {
    let f = LedFilterable::new();
    assert!(!f.filter("asus::kbd_backlight"));
    assert!(!f.filter(""));
}

#[test]
fn multi_filter_matches_any_filter() {
    let by_name = LedFilterable {
        device_name: Some("phy0".to_string()),
        color: None,
        function: None,
    };
    let by_function = LedFilterable::new().with_function(LedFunction::CapsLock);
    let root = ClassDir {
        present: true,
        devices: vec![
            led_dir("phy0-led", "0\n", "1\n"),
            led_dir("input2::capslock", "1\n", "1\n"),
            led_dir("asus::kbd_backlight", "2\n", "3\n"),
        ],
    };
    let leds =
        LedDevice::get_led_devices_with_multi_filter(&root, &[by_name, by_function]).unwrap();
    assert_eq!(leds.len(), 2);
    assert_eq!(leds[0].get_device_name(), "phy0-led");
    assert_eq!(leds[1].get_device_name(), "input2::capslock");
}

#[test]
fn get_led_device() {
    let root = ClassDir {
        present: true,
        devices: vec![led_dir("asus::kbd_backlight", "2\n", "3\n")],
    };
    let led = LedDevice::get_led_device(&root, "asus::kbd_backlight".to_string()).unwrap();
    assert_eq!(led.get_device_name(), "asus::kbd_backlight");
    assert_eq!(led.get_brightness(), 2);
    assert_eq!(led.get_max_brightness(), 3);
    assert_eq!(led.info.device_name, Some("asus".to_string()));
    assert_eq!(led.info.color, None);
    assert_eq!(led.info.function, Some(LedFunction::KbdBacklight));

    let missing = LedDevice::get_led_device(&root, "nosuch".to_string());
    assert!(matches!(missing, Err(Error::InvalidDeviceName { device }) if device == "nosuch"));
}

#[test]
fn get_all_led_devices() {
    let root = ClassDir {
        present: true,
        devices: vec![
            led_dir("asus::kbd_backlight", "2\n", "3\n"),
            led_dir("phy0-led", "0\n", "1\n"),
        ],
    };
    let leds = LedDevice::get_all_led_devices(&root).unwrap();
    assert_eq!(leds.len(), 2);
    for led in leds {
        println!("LED Device: {:?}", led);
    }
}

#[test]
fn get_all_led_devices_absent_root() {
    let root = ClassDir {
        present: false,
        devices: vec![],
    };
    let leds = LedDevice::get_all_led_devices(&root).unwrap();
    assert!(leds.is_empty());
    let filtered =
        LedDevice::get_led_devices_with_filter(&root, LedFilterable::new()).unwrap();
    assert!(filtered.is_empty());
    let keyboards = LedDevice::get_all_keyboard_devices(&root).unwrap();
    assert!(keyboards.is_empty());
}

#[test]
fn get_all_led_devices_aborts_on_first_error() {
    let root = ClassDir {
        present: true,
        devices: vec![
            led_dir("good", "1\n", "2\n"),
            led_dir("bad", "zero\n", "2\n"),
            led_dir("unread", "1\n", "2\n"),
        ],
    };
    let r = LedDevice::get_all_led_devices(&root);
    assert!(matches!(r, Err(Error::ParseBrightnessError { content }) if content == "zero"));
}

#[test]
fn get_led_device_missing_attribute() {
    let root = ClassDir {
        present: true,
        devices: vec![DeviceDir {
            name: "bare".to_string(),
            attrs: vec![],
        }],
    };
    let r = LedDevice::get_led_device(&root, "bare".to_string());
    assert!(matches!(r, Err(Error::Io { file }) if file == "brightness"));
}

#[test]
fn get_all_keyboard_devices() {
    let root = ClassDir {
        present: true,
        devices: vec![
            led_dir("asus::kbd_backlight", "2\n", "3\n"),
            led_dir("input2::capslock", "0\n", "1\n"),
        ],
    };
    let keyboards = LedDevice::get_all_keyboard_devices(&root).unwrap();
    assert_eq!(keyboards.len(), 1);
    for kbd in &keyboards {
        println!("Keyboard: {:?}", kbd);
    }
    assert_eq!(keyboards[0].get_device_name(), "asus::kbd_backlight");
}

#[test]
fn set_led_brightness() {
    let root = ClassDir {
        present: true,
        devices: vec![led_dir("asus::kbd_backlight", "2\n", "3\n")],
    };
    let led = LedDevice::get_led_device(&root, "asus::kbd_backlight".to_string()).unwrap();

    let too_high = led.set_brightness(4);
    assert!(matches!(
        too_high,
        Err(Error::InvalidBrightnessLevel { given: 4, max: 3 })
    ));

    let cmd = led.set_brightness(3).unwrap();
    assert_eq!(cmd.subsystem, Subsystem::Leds);
    assert_eq!(cmd.subsystem.as_str(), "leds");
    assert_eq!(cmd.device, "asus::kbd_backlight");
    assert_eq!(cmd.level, 3);
    assert_eq!(cmd.payload, "3");
}
