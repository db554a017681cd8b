use lgo1_trio::classify::{classify, DeviceIdentity, DeviceSnapshot};
use lgo1_trio::classify::{BUS_BLUETOOTH, BUS_I8042, BUS_USB};
use lgo1_trio::classify::{KEY_BACKSPACE, KEY_ENTER, KEY_ESC};
use lgo1_trio::status::KeyboardStatus;

fn probe_keys() -> Vec<u16> {
    vec![KEY_ENTER, KEY_BACKSPACE, KEY_ESC]
}

fn internal_keyboard() -> DeviceSnapshot {
    DeviceSnapshot {
        identity: DeviceIdentity { bus_type: BUS_I8042, vendor: 0x1, product: 0x1 },
        keys: Some(probe_keys()),
    }
}

fn case_keyboard() -> DeviceSnapshot {
    DeviceSnapshot {
        identity: DeviceIdentity { bus_type: BUS_BLUETOOTH, vendor: 0x04e8, product: 0x7021 },
        keys: Some(probe_keys()),
    }
}

fn usb_keyboard() -> DeviceSnapshot {
    DeviceSnapshot {
        identity: DeviceIdentity { bus_type: BUS_USB, vendor: 0x05ac, product: 0x0220 },
        keys: Some(probe_keys()),
    }
}

#[test]
fn scenario_internal_keyboard_only() {
    let snapshot = vec![internal_keyboard()];
    let status = classify(&snapshot);
    assert_eq!(status, KeyboardStatus::NoExternal);
    assert!(status.is_tablet_mode());
}

#[test]
fn scenario_usb_keyboard_plugged_in() {
    let snapshot = vec![internal_keyboard(), usb_keyboard()];
    let status = classify(&snapshot);
    assert_eq!(status, KeyboardStatus::AnyExternal);
    assert!(!status.is_tablet_mode());
}

#[test]
fn scenario_case_plus_internal() {
    let snapshot = vec![case_keyboard(), internal_keyboard()];
    assert_eq!(classify(&snapshot), KeyboardStatus::CaseExternal);
}

#[test]
fn case_precedence_regardless_of_position() {
    // The case identity dominates even when an ordinary external keyboard
    // comes first in the enumeration order.
    let snapshot = vec![internal_keyboard(), usb_keyboard(), case_keyboard()];
    assert_eq!(classify(&snapshot), KeyboardStatus::CaseExternal);
    let snapshot = vec![case_keyboard(), usb_keyboard()];
    assert_eq!(classify(&snapshot), KeyboardStatus::CaseExternal);
}

#[test]
fn case_identity_without_capabilities_still_case() {
    let bare_case = DeviceSnapshot {
        identity: DeviceIdentity { bus_type: BUS_BLUETOOTH, vendor: 0x04e8, product: 0x7021 },
        keys: None,
    };
    assert_eq!(classify(&vec![bare_case]), KeyboardStatus::CaseExternal);
}

#[test]
fn blacklisted_devices_never_external() {
    let legion_controller = DeviceSnapshot {
        identity: DeviceIdentity { bus_type: BUS_USB, vendor: 0x17ef, product: 0x6184 },
        keys: Some(probe_keys()),
    };
    let snapshot = vec![internal_keyboard(), legion_controller];
    assert_eq!(classify(&snapshot), KeyboardStatus::NoExternal);
}

#[test]
fn device_without_capabilities_not_a_keyboard() {
    let mouse = DeviceSnapshot {
        identity: DeviceIdentity { bus_type: BUS_USB, vendor: 0x046d, product: 0xc077 },
        keys: None,
    };
    assert_eq!(classify(&vec![mouse]), KeyboardStatus::NoExternal);
}

#[test]
fn device_missing_probe_key_not_a_keyboard() {
    let partial = DeviceSnapshot {
        identity: DeviceIdentity { bus_type: BUS_USB, vendor: 0x1234, product: 0x5678 },
        keys: Some(vec![KEY_ENTER, KEY_BACKSPACE]),
    };
    assert_eq!(classify(&vec![partial]), KeyboardStatus::NoExternal);
}

#[test]
fn empty_snapshot_classifies_none() {
    let snapshot: Vec<DeviceSnapshot> = Vec::new();
    let status = classify(&snapshot);
    assert_eq!(status, KeyboardStatus::NoExternal);
    assert!(status.is_tablet_mode());
}

#[test]
fn classify_twice_same_snapshot_same_value() {
    let snapshot = vec![internal_keyboard(), usb_keyboard()];
    assert_eq!(classify(&snapshot), classify(&snapshot));
}

#[test]
fn tablet_mode_iff_no_external() {
    assert!(KeyboardStatus::NoExternal.is_tablet_mode());
    assert!(!KeyboardStatus::AnyExternal.is_tablet_mode());
    assert!(!KeyboardStatus::CaseExternal.is_tablet_mode());
}
