use waybar_events::route::{device_filter, unit_matches, Filter};
use waybar_events::text::str_contains;

#[test]
fn substring_found_anywhere() {
    assert!(str_contains("sys-subsystem-bluetooth-hci0", "bluetooth"));
    assert!(str_contains("sys-subsystem-bluetooth-hci0", "sys-subsystem"));
    assert!(str_contains("sys-subsystem-bluetooth-hci0", "hci0"));
    assert!(str_contains("abc", "abc"));
}

#[test]
fn substring_absent() {
    assert!(!str_contains("sys-subsystem-usb-storage", "bluetooth"));
    assert!(!str_contains("blue", "bluetooth"));
    assert!(!str_contains("", "a"));
    assert!(!str_contains("abab", "abb"));
}

#[test]
fn empty_needle_is_always_found() {
    assert!(str_contains("", ""));
    assert!(str_contains("anything", ""));
}

#[test]
fn substring_is_case_sensitive() {
    assert!(!str_contains("sys-subsystem-Bluetooth-hci0", "bluetooth"));
}

#[test]
fn substring_over_multibyte_text() {
    assert!(str_contains("gerät-bluetooth-ä", "h-ä"));
    assert!(!str_contains("gerät", "rat"));
}

#[test]
fn bluetooth_device_unit_matches() {
    assert!(unit_matches("sys-subsystem-bluetooth-hci0"));
    assert!(unit_matches("sys-subsystem-bluetooth-devices-hci0:11"));
}

#[test]
fn other_units_do_not_match() {
    assert!(!unit_matches("sys-subsystem-usb-storage"));
    assert!(!unit_matches("bluetooth.service"));
    assert!(!unit_matches("sys-subsystem-net-devices-wlan0"));
    assert!(!unit_matches(""));
    assert!(!unit_matches("SYS-SUBSYSTEM-BLUETOOTH-hci0"));
}

#[test]
fn filter_gives_same_answer_when_repeated() {
    let f = device_filter();
    for name in ["sys-subsystem-bluetooth-hci0", "sys-subsystem-usb-storage"] {
        let first = f.admits(name);
        assert_eq!(f.admits(name), first);
        assert_eq!(unit_matches(name), first);
    }
}

#[test]
fn needle_order_does_not_matter() {
    let forward = Filter::AllOf(vec!["bluetooth".to_string(), "sys-subsystem".to_string()]);
    let backward = Filter::AllOf(vec!["sys-subsystem".to_string(), "bluetooth".to_string()]);
    let repeated = Filter::AllOf(vec![
        "bluetooth".to_string(),
        "sys-subsystem".to_string(),
        "bluetooth".to_string(),
    ]);
    for name in [
        "sys-subsystem-bluetooth-hci0",
        "sys-subsystem-usb-storage",
        "bluetooth.service",
        "",
    ] {
        assert_eq!(forward.admits(name), backward.admits(name));
        assert_eq!(forward.admits(name), repeated.admits(name));
    }
}

#[test]
fn everything_filter_admits_all() {
    assert!(Filter::Everything.admits(""));
    assert!(Filter::Everything.admits("org.freedesktop.Notifications"));
    assert!(Filter::AllOf(vec![]).admits("x"));
}
