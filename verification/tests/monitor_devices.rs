//! Monitor directory operations over an in-memory class directory picture.

use bulbb::error::Error;
use bulbb::monitor::{BackLightType, MonitorDevice};
use bulbb::sysfs::{AttrFile, ClassDir, DeviceDir, Subsystem, SysBacklightInterface};

fn monitor_dir(
    name: &str,
    bl_power: &str,
    brightness: &str,
    actual: &str,
    max: &str,
    bl_type: &str,
) -> DeviceDir {
    DeviceDir {
        name: name.to_string(),
        attrs: vec![
            AttrFile {
                attr: SysBacklightInterface::Power,
                content: bl_power.to_string(),
            },
            AttrFile {
                attr: SysBacklightInterface::Brightness,
                content: brightness.to_string(),
            },
            AttrFile {
                attr: SysBacklightInterface::ActualBrightness,
                content: actual.to_string(),
            },
            AttrFile {
                attr: SysBacklightInterface::MaxBrightness,
                content: max.to_string(),
            },
            AttrFile {
                attr: SysBacklightInterface::Type,
                content: bl_type.to_string(),
            },
        ],
    }
}

fn format_monitor_device(bl: MonitorDevice) {
    println!(
        "
Device: {}
	Type: {}
	Power: {}
	Brightness
\tMax: {}
\tActual: {}
\tCurrent: {}
		",
        bl.device,
        bl.bl_type.to_string(),
        bl.bl_power,
        bl.max_brightness,
        bl.actual_brightness,
        bl.brightness
    );
}

#[test]
fn get_all_monitor_devices() {
    let root = ClassDir {
        present: true,
        devices: vec![
            monitor_dir("amdgpu_bl0", "0\n", "50\n", "50\n", "100\n", "firmware\n"),
            monitor_dir("acpi_video0", "0\n", "7\n", "7\n", "15\n", "raw\n"),
        ],
    };
    let monitors = MonitorDevice::get_all_monitor_devices(&root).unwrap();
    assert_eq!(monitors.len(), 2);
    for monitor in monitors {
        format_monitor_device(monitor)
    }
}

#[test]
fn get_all_monitor_devices_absent_root() {
    let root = ClassDir {
        present: false,
        devices: vec![],
    };
    let monitors = MonitorDevice::get_all_monitor_devices(&root).unwrap();
    assert!(monitors.is_empty());
}

#[test]
fn monitor_scenario() {
    let root = ClassDir {
        present: true,
        devices: vec![monitor_dir(
            "amdgpu_bl0",
            "0\n",
            "50\n",
            "50\n",
            "100\n",
            "firmware\n",
        )],
    };
    let monitor = MonitorDevice::get_monitor_device(&root, "amdgpu_bl0".to_string()).unwrap();
    assert_eq!(monitor.get_device_name(), "amdgpu_bl0");
    assert_eq!(monitor.get_power(), 0);
    assert_eq!(monitor.get_brightness(), 50);
    assert_eq!(monitor.get_actual_brightness(), 50);
    assert_eq!(monitor.get_max_brightness(), 100);
    assert_eq!(monitor.get_type(), BackLightType::FirmWare);

    let refused = monitor.set_brightness(150);
    assert!(matches!(
        refused,
        Err(Error::InvalidBrightnessLevel {
            given: 150,
            max: 100
        })
    ));

    let cmd = monitor.set_brightness(80).unwrap();
    assert_eq!(cmd.subsystem, Subsystem::Backlight);
    assert_eq!(cmd.subsystem.as_str(), "backlight");
    assert_eq!(cmd.device, "amdgpu_bl0");
    assert_eq!(cmd.level, 80);
    assert_eq!(cmd.payload, "80");
}

#[test]
fn set_monitor() {
    let root = ClassDir {
        present: true,
        devices: vec![monitor_dir(
            "amdgpu_bl0",
            "0\n",
            "80\n",
            "80\n",
            "100\n",
            "firmware\n",
        )],
    };
    let mut monitors = MonitorDevice::get_all_monitor_devices(&root).unwrap();
    if !monitors.is_empty() {
        let first_device = monitors.remove(0);
        let device_name = first_device.get_device_name().to_string();
        let starting_brightness = first_device.get_actual_brightness();
        let max_brightness = first_device.get_max_brightness();
        let new_brightness: u32 = if starting_brightness > (max_brightness / 2) {
            0
        } else {
            max_brightness
        };

        // Carry the decided change out against the in-memory picture, as a
        // backend would against the filesystem.
        let cmd = first_device.set_brightness(new_brightness).unwrap();
        let updated_root = ClassDir {
            present: true,
            devices: vec![monitor_dir(
                &device_name,
                "0\n",
                &cmd.payload,
                &cmd.payload,
                "100\n",
                "firmware\n",
            )],
        };

        let udpated_device =
            MonitorDevice::get_monitor_device(&updated_root, device_name.clone()).unwrap();
        let updated_brightness = udpated_device.get_actual_brightness();

        assert_ne!(starting_brightness, updated_brightness);
        assert_eq!(updated_brightness, new_brightness);

        let cmd_back = udpated_device.set_brightness(starting_brightness).unwrap();
        let final_root = ClassDir {
            present: true,
            devices: vec![monitor_dir(
                &device_name,
                "0\n",
                &cmd_back.payload,
                &cmd_back.payload,
                "100\n",
                "firmware\n",
            )],
        };

        let final_device =
            MonitorDevice::get_monitor_device(&final_root, device_name).unwrap();
        let final_brightness = final_device.get_actual_brightness();

        assert_ne!(final_brightness, updated_brightness);
        assert_eq!(final_brightness, starting_brightness);
    }
}

#[test]
fn monitor_error_paths() {
    let root = ClassDir {
        present: true,
        devices: vec![
            monitor_dir("bad_number", "0\n", "abc\n", "50\n", "100\n", "firmware\n"),
            monitor_dir("bad_type", "0\n", "50\n", "50\n", "100\n", "lcd\n"),
            DeviceDir {
                name: "bare".to_string(),
                attrs: vec![],
            },
        ],
    };

    let missing = MonitorDevice::get_monitor_device(&root, "nosuch".to_string());
    assert!(matches!(missing, Err(Error::InvalidDeviceName { device }) if device == "nosuch"));

    let bad_number = MonitorDevice::get_monitor_device(&root, "bad_number".to_string());
    assert!(matches!(bad_number, Err(Error::ParseBrightnessError { content }) if content == "abc"));

    let bad_type = MonitorDevice::get_monitor_device(&root, "bad_type".to_string());
    assert!(matches!(bad_type, Err(Error::UnknownBacklightType { value }) if value == "lcd"));

    let bare = MonitorDevice::get_monitor_device(&root, "bare".to_string());
    assert!(matches!(bare, Err(Error::Io { file }) if file == "bl_power"));

    // Enumeration aborts on the first per-device failure.
    let all = MonitorDevice::get_all_monitor_devices(&root);
    assert!(matches!(all, Err(Error::ParseBrightnessError { content }) if content == "abc"));
}

#[test]
fn overflowing_brightness_value_is_refused() {
    let root = ClassDir {
        present: true,
        devices: vec![
            monitor_dir("big", "0\n", "4294967295\n", "0\n", "4294967295\n", "raw\n"),
            monitor_dir("huge", "0\n", "4294967296\n", "0\n", "100\n", "raw\n"),
        ],
    };
    let big = MonitorDevice::get_monitor_device(&root, "big".to_string()).unwrap();
    assert_eq!(big.get_brightness(), u32::MAX);
    assert_eq!(big.get_max_brightness(), u32::MAX);
    let cmd = big.set_brightness(u32::MAX).unwrap();
    assert_eq!(cmd.payload, "4294967295");

    let huge = MonitorDevice::get_monitor_device(&root, "huge".to_string());
    assert!(
        matches!(huge, Err(Error::ParseBrightnessError { content }) if content == "4294967296")
    );
}

#[test]
fn attribute_values_are_trimmed() {
    let root = ClassDir {
        present: true,
        devices: vec![monitor_dir(
            "padded",
            " 0 \n",
            "\t50\n",
            "50\n",
            "007\n",
            "  firmware\t\n",
        )],
    };
    let monitor = MonitorDevice::get_monitor_device(&root, "padded".to_string()).unwrap();
    assert_eq!(monitor.get_power(), 0);
    assert_eq!(monitor.get_brightness(), 50);
    assert_eq!(monitor.get_max_brightness(), 7);
    assert_eq!(monitor.get_type(), BackLightType::FirmWare);

    let text = bulbb::sysfs::read_sys_backlight(
        &root,
        "padded",
        SysBacklightInterface::MaxBrightness,
    )
    .unwrap();
    assert_eq!(text, "007");
}
