//! Discovery of devices.

use hid_rgb_ctl::descriptor::discovery::get_hid_name;
use hid_rgb_ctl::descriptor::order::sort_entries;
use hid_rgb_ctl::{
    discover_devices, DeviceInfo, HidrawEntry, LedRgbDevice, ReportInfo, ReportType,
};

fn lamp_array_descriptor() -> Vec<u8> {
    vec![
        0x05, 0x59, 0x09, 0x01, 0xA1, 0x01, // LampArray
        0x09, 0x60, 0xA1, 0x02, 0x85, 0x05, 0x75, 0x08, 0x95, 0x09, 0xB1, 0x02, 0xC0, // range
        0x09, 0x70, 0xA1, 0x02, 0x85, 0x06, 0x75, 0x08, 0x95, 0x01, 0xB1, 0x02, 0xC0, // control
        0xC0,
    ]
}

fn led_descriptor() -> Vec<u8> {
    vec![
        0x05, 0x08, 0x09, 0x4B, 0xA1, 0x01, 0x85, 0x03, // an application, report 3
        0x09, 0x52, 0xA1, 0x02, // RGB LED
        0x09, 0x53, 0x09, 0x54, 0x09, 0x55, 0x26, 0xFF, 0x00, 0x75, 0x08, 0x95, 0x03, 0x91, 0x02,
        0xC0, 0xC0,
    ]
}

fn entry(name: &str, descriptor: Option<Vec<u8>>, uevent: Option<&str>) -> HidrawEntry {
    HidrawEntry {
        name: name.to_string(),
        descriptor,
        uevent: uevent.map(|s| s.to_string()),
    }
}

fn name_in(uevent: &str) -> String {
    get_hid_name(&Some(uevent.to_string()))
}

#[test]
fn the_name_stands_on_its_own_line() {
    assert_eq!(name_in("DRIVER=hid-generic\nHID_ID=1\nHID_NAME=My Keyboard\nHID_PHYS=x\n"), "My Keyboard");
    assert_eq!(name_in("HID_NAME=One"), "One");
    assert_eq!(name_in("HID_NAME=One\r\nHID_NAME=Two\n"), "One");
    assert_eq!(name_in("HID_NAME=\n"), "");
    assert_eq!(name_in("HID_NAME=\r\n"), "");
    assert_eq!(name_in("HID_NAME=a=b\r"), "a=b\r");
    assert_eq!(name_in("HID_NAME=\u{e9}\u{20ac} lamp\n"), "\u{e9}\u{20ac} lamp");
}

#[test]
fn without_a_name_it_is_unknown() {
    assert_eq!(get_hid_name(&None), "Unknown");
    assert_eq!(name_in(""), "Unknown");
    assert_eq!(name_in("XHID_NAME=x\n HID_NAME=y\nHID_NAME\n"), "Unknown");
    assert_eq!(name_in("a\rHID_NAME=x\n"), "Unknown");
}

#[test]
fn both_kinds_of_devices_are_found() {
    let devices = discover_devices(&vec![
        entry("hidraw0", Some(lamp_array_descriptor()), Some("HID_NAME=Lamps\n")),
        entry("hidraw1", Some(vec![0x05, 0x01, 0x09, 0x06, 0xA1, 0x01, 0xC0]), None),
        entry("hidraw2", Some(led_descriptor()), None),
    ]);
    assert_eq!(devices.len(), 2);
    match &devices[0] {
        DeviceInfo::LampArray(info) => {
            assert_eq!(info.hidraw_path, "/dev/hidraw0");
            assert_eq!(info.name, "Lamps");
            assert_eq!(info.reports.range_update, Some(ReportInfo { report_id: 5, size: 9 }));
            assert_eq!(info.reports.control, Some(ReportInfo { report_id: 6, size: 1 }));
            assert_eq!(info.reports.multi_update, None);
        }
        DeviceInfo::LedRgb(_) => panic!("not a LampArray"),
    }
    assert_eq!(devices[0].hidraw_path(), "/dev/hidraw0");
    assert_eq!(devices[0].name(), "Lamps");
    match &devices[1] {
        DeviceInfo::LedRgb(info) => {
            assert_eq!(info.report_id, 3);
            assert_eq!(info.report_size, 3);
            assert_eq!((info.red_offset, info.blue_offset, info.green_offset), (0, 1, 2));
            assert_eq!(info.intensity_offset, None);
            assert_eq!(info.channel_size, 8);
            assert_eq!(info.report_type, ReportType::Output);
            assert_eq!(info.red_logical_max, 255);
            assert_eq!(info.intensity_logical_max, None);
        }
        DeviceInfo::LampArray(_) => panic!("not an LED"),
    }
    assert_eq!(devices[1].hidraw_path(), "/dev/hidraw2");
    assert_eq!(devices[1].name(), "Unknown");
}

#[test]
fn one_entry_can_be_two_devices() {
    let mut d = lamp_array_descriptor();
    d.extend(led_descriptor());
    let devices = discover_devices(&vec![entry("hidraw7", Some(d), Some("HID_NAME=Both"))]);
    assert_eq!(devices.len(), 2);
    assert!(matches!(devices[0], DeviceInfo::LampArray(_)));
    assert!(matches!(devices[1], DeviceInfo::LedRgb(_)));
    assert_eq!(devices[1].hidraw_path(), "/dev/hidraw7");
    assert_eq!(devices[1].name(), "Both");
}

#[test]
fn a_lamp_array_needs_range_updates_and_control() {
    let mut d = lamp_array_descriptor();
    // The control report under another usage.
    d[20] = 0x71;
    assert!(discover_devices(&vec![entry("hidraw0", Some(d), None)]).is_empty());
}

#[test]
fn no_descriptor_means_no_device() {
    let devices = discover_devices(&vec![
        entry("hidraw0", None, Some("HID_NAME=x\n")),
        entry("hidraw1", Some(Vec::new()), Some("HID_NAME=x\n")),
    ]);
    assert!(devices.is_empty());
    assert!(discover_devices(&Vec::new()).is_empty());
}

#[test]
fn devices_come_in_the_order_of_their_names() {
    let names = ["hidraw2", "hidraw10", "hidraw1", "a", "hidraw"];
    let entries: Vec<HidrawEntry> =
        names.iter().map(|n| entry(n, Some(led_descriptor()), None)).collect();
    let expected =
        vec!["/dev/a", "/dev/hidraw", "/dev/hidraw1", "/dev/hidraw10", "/dev/hidraw2"];
    let devices = discover_devices(&entries);
    let paths: Vec<&str> = devices.iter().map(|d| d.hidraw_path()).collect();
    assert_eq!(paths, expected);
    let reversed: Vec<HidrawEntry> = entries.into_iter().rev().collect();
    let devices = discover_devices(&reversed);
    let paths: Vec<&str> = devices.iter().map(|d| d.hidraw_path()).collect();
    assert_eq!(paths, expected);
}

#[test]
fn entries_are_sorted() {
    let entries = vec![
        entry("b", None, Some("1")),
        entry("a", None, Some("2")),
        entry("b", None, Some("3")),
        entry("", None, Some("4")),
    ];
    let sorted: Vec<&str> =
        sort_entries(&entries).iter().map(|e| e.uevent.as_deref().unwrap()).collect();
    assert_eq!(sorted, vec!["4", "2", "1", "3"]);
    assert!(sort_entries(&Vec::new()).is_empty());
}

#[test]
fn an_led_in_an_input_report_is_no_device() {
    let mut d = led_descriptor();
    let at = d.iter().position(|b| *b == 0x91).unwrap();
    d[at] = 0x81;
    assert!(discover_devices(&vec![entry("hidraw0", Some(d.clone()), None)]).is_empty());
    d[at] = 0xB1;
    let devices = discover_devices(&vec![entry("hidraw0", Some(d), None)]);
    match &devices[..] {
        [DeviceInfo::LedRgb(info)] => assert_eq!(info.report_type, ReportType::Feature),
        other => panic!("{other:?}"),
    }
}

#[test]
fn an_led_that_can_be_sent_stands_beside_one_that_cannot() {
    let mut input = led_descriptor();
    let at = input.iter().position(|b| *b == 0x91).unwrap();
    input[at] = 0x81;
    input[7] = 0x01;
    input.extend(led_descriptor());
    let devices = discover_devices(&vec![entry("hidraw0", Some(input), None)]);
    match &devices[..] {
        [DeviceInfo::LedRgb(info)] => assert_eq!(info.report_id, 3),
        other => panic!("{other:?}"),
    }
}

#[test]
fn a_found_led_can_be_set() {
    let devices = discover_devices(&vec![entry("hidraw0", Some(led_descriptor()), None)]);
    match &devices[..] {
        [DeviceInfo::LedRgb(info)] => {
            let session = LedRgbDevice::new(info).set_color(1, 2, 3, 4);
            assert!(session.resume(Ok(Vec::new())).fits());
        }
        other => panic!("{other:?}"),
    }
    // One field for three usages: the last two lie outside the report.
    let mut d = led_descriptor();
    let at = d.iter().position(|b| *b == 0x95).unwrap();
    d[at + 1] = 0x01;
    let devices = discover_devices(&vec![entry("hidraw0", Some(d), None)]);
    match &devices[..] {
        [DeviceInfo::LedRgb(info)] => {
            assert_eq!((info.report_size, info.green_offset), (1, 2));
            let session = LedRgbDevice::new(info).set_color(1, 2, 3, 4);
            assert!(!session.resume(Ok(Vec::new())).fits());
        }
        other => panic!("{other:?}"),
    }
}
