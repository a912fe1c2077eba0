//! Report descriptors.

use hid_rgb_ctl::descriptor::item::{parse_item, payload_value, payload_value_signed};
use hid_rgb_ctl::descriptor::parser::{parse_descriptor, place_channels, report_type_of};
use hid_rgb_ctl::descriptor::state::{
    is_main_data_tag, lamp_array_report_name, LedRgbChannelBuilder, UsageEntry,
};
use hid_rgb_ctl::descriptor::{LampReport, ReportInfo};
use hid_rgb_ctl::ReportType;

/// A Feature field of `count` times `size` bits, on whatever page is current.
fn feature(size: u8, count: u8) -> Vec<u8> {
    vec![0x75, size, 0x95, count, 0xB1, 0x02]
}

/// A report collection inside a LampArray: usage, report ID, and one Feature field.
fn lamp_report(usage: u8, report_id: u8, size: u8, count: u8) -> Vec<u8> {
    let mut d: Vec<u8> = vec![0x09, usage, 0xA1, 0x02, 0x85, report_id];
    d.extend(feature(size, count));
    d.push(0xC0);
    d
}

/// A LampArray application with the given report collections.
fn lamp_array(reports: Vec<Vec<u8>>) -> Vec<u8> {
    let mut d: Vec<u8> = vec![0x05, 0x59, 0x09, 0x01, 0xA1, 0x01];
    for r in reports {
        d.extend(r);
    }
    d.push(0xC0);
    d
}

/// An RGB LED inside a vendor application, with the given usages as fields of one report.
fn rgb_led(report_id: u8, usages: &[u8], main: u8) -> Vec<u8> {
    let mut d: Vec<u8> = vec![0x06, 0x00, 0xFF, 0x09, 0x01, 0xA1, 0x01, 0x05, 0x08];
    d.extend([0x85, report_id, 0x09, 0x52, 0xA1, 0x02]);
    for u in usages {
        d.extend([0x09, *u]);
    }
    d.extend([0x15, 0x00, 0x26, 0xFF, 0x00, 0x75, 0x08, 0x95, usages.len() as u8, main, 0x02]);
    d.extend([0xC0, 0xC0]);
    d
}

#[test]
fn short_items_are_taken_apart() {
    let d = [0x05, 0x59, 0xC0, 0x26, 0xFF, 0x00, 0x17, 1, 2, 3, 4];
    assert_eq!(parse_item(&d, 0), Some((0x04, 1, &[0x59u8][..], 2)));
    assert_eq!(parse_item(&d, 2), Some((0xC0, 0, &[][..], 1)));
    assert_eq!(parse_item(&d, 3), Some((0x24, 1, &[0xFFu8, 0x00][..], 3)));
    assert_eq!(parse_item(&d, 6), Some((0x14, 1, &[1u8, 2, 3, 4][..], 5)));
    assert_eq!(parse_item(&d, 11), None);
}

#[test]
fn cut_off_items_are_no_items() {
    assert_eq!(parse_item(&[], 0), None);
    assert_eq!(parse_item(&[0x05], 0), None);
    assert_eq!(parse_item(&[0x26, 0xFF], 0), None);
    assert_eq!(parse_item(&[0x27, 1, 2, 3], 0), None);
    assert_eq!(parse_item(&[0xFE, 0], 0), None);
    assert_eq!(parse_item(&[0xFE, 2, 0, 1], 0), None);
}

#[test]
fn long_items_are_skipped_whole() {
    let d = [0xFE, 2, 0x10, 0xA1, 0xA1, 0xC0];
    assert_eq!(parse_item(&d, 0), Some((0xFE, 3, &[][..], 5)));
    assert_eq!(parse_item(&d, 5), Some((0xC0, 0, &[][..], 1)));
    assert_eq!(parse_item(&[0xFE, 0, 0x10], 0), Some((0xFE, 3, &[][..], 3)));
}

#[test]
fn payloads_are_little_endian() {
    assert_eq!(payload_value(&[]), 0);
    assert_eq!(payload_value(&[0xFF]), 255);
    assert_eq!(payload_value(&[0x34, 0x12]), 0x1234);
    assert_eq!(payload_value(&[1, 2, 3]), 0x03_0201);
    assert_eq!(payload_value(&[0x78, 0x56, 0x34, 0x12]), 0x1234_5678);
    assert_eq!(payload_value(&[0xFF, 0xFF, 0xFF, 0xFF, 0x01]), 0xFFFF_FFFF);
}

#[test]
fn signed_payloads_are_sign_extended() {
    assert_eq!(payload_value_signed(&[]), 0);
    assert_eq!(payload_value_signed(&[0x7F]), 127);
    assert_eq!(payload_value_signed(&[0xFF]), -1);
    assert_eq!(payload_value_signed(&[0x80]), -128);
    assert_eq!(payload_value_signed(&[0xFF, 0x00]), 255);
    assert_eq!(payload_value_signed(&[0x00, 0x80]), -32768);
    assert_eq!(payload_value_signed(&[0x00, 0x00, 0x80]), -8_388_608);
    assert_eq!(payload_value_signed(&[0xFF, 0xFF, 0x7F]), 8_388_607);
    assert_eq!(payload_value_signed(&[0xFE, 0xFF, 0xFF, 0xFF]), -2);
    assert_eq!(payload_value_signed(&[0xFF, 0xFF, 0xFF, 0x7F]), i32::MAX);
    assert_eq!(payload_value_signed(&[1, 0, 0, 0x80, 7]), i32::MIN + 1);
}

#[test]
fn usages_name_the_lamp_array_reports() {
    assert_eq!(lamp_array_report_name(0x02), Some(LampReport::Attributes));
    assert_eq!(lamp_array_report_name(0x20), Some(LampReport::AttrRequest));
    assert_eq!(lamp_array_report_name(0x22), Some(LampReport::AttrResponse));
    assert_eq!(lamp_array_report_name(0x50), Some(LampReport::MultiUpdate));
    assert_eq!(lamp_array_report_name(0x60), Some(LampReport::RangeUpdate));
    assert_eq!(lamp_array_report_name(0x70), Some(LampReport::Control));
    assert_eq!(lamp_array_report_name(0x01), None);
    assert_eq!(lamp_array_report_name(0x21), None);
    assert_eq!(LampReport::AttrRequest.name(), "attr_request");
    assert_eq!(LampReport::Control.name(), "control");
}

#[test]
fn data_tags_and_report_types() {
    assert!(is_main_data_tag(0x80) && is_main_data_tag(0x90) && is_main_data_tag(0xB0));
    assert!(!is_main_data_tag(0xA0) && !is_main_data_tag(0xC0) && !is_main_data_tag(0x00));
    assert_eq!(report_type_of(0x80), ReportType::Input);
    assert_eq!(report_type_of(0x90), ReportType::Output);
    assert_eq!(report_type_of(0xB0), ReportType::Feature);
}

#[test]
fn a_lamp_array_descriptor_gives_all_reports() {
    let d = lamp_array(vec![
        lamp_report(0x02, 1, 8, 22),
        lamp_report(0x20, 2, 16, 1),
        lamp_report(0x22, 3, 8, 28),
        lamp_report(0x50, 4, 8, 50),
        lamp_report(0x60, 5, 8, 9),
        lamp_report(0x70, 6, 8, 1),
    ]);
    let (r, leds) = parse_descriptor(&d);
    assert_eq!(r.attributes, Some(ReportInfo { report_id: 1, size: 22 }));
    assert_eq!(r.attr_request, Some(ReportInfo { report_id: 2, size: 2 }));
    assert_eq!(r.attr_response, Some(ReportInfo { report_id: 3, size: 28 }));
    assert_eq!(r.multi_update, Some(ReportInfo { report_id: 4, size: 50 }));
    assert_eq!(r.range_update, Some(ReportInfo { report_id: 5, size: 9 }));
    assert_eq!(r.control, Some(ReportInfo { report_id: 6, size: 1 }));
    assert!(leds.is_empty());
}

#[test]
fn report_sizes_add_up_and_round_up() {
    // 3 x 1 bit and 2 x 3 bits make 9 bits, which take 2 bytes.
    let mut report: Vec<u8> = vec![0x09, 0x70, 0xA1, 0x02, 0x85, 7];
    report.extend(feature(1, 3));
    report.extend(feature(3, 2));
    report.push(0xC0);
    let (r, _) = parse_descriptor(&lamp_array(vec![report]));
    assert_eq!(r.control, Some(ReportInfo { report_id: 7, size: 2 }));
}

#[test]
fn bit_counts_wrap_around_at_32_bits() {
    // 0x10000 fields of 0x10000 bits are 2^32 bits, which count as none; 8 more make one byte.
    let mut report: Vec<u8> = vec![0x09, 0x70, 0xA1, 0x02, 0x85, 7];
    report.extend([0x77, 0, 0, 1, 0, 0x97, 0, 0, 1, 0, 0xB1, 0x02]);
    report.extend(feature(8, 1));
    report.push(0xC0);
    let (r, _) = parse_descriptor(&lamp_array(vec![report]));
    assert_eq!(r.control, Some(ReportInfo { report_id: 7, size: 1 }));
}

#[test]
fn reports_outside_a_lamp_array_do_not_count() {
    // The same report collection, but in an application that is no LampArray.
    let mut d: Vec<u8> = vec![0x05, 0x59, 0x09, 0x02, 0xA1, 0x01];
    d.extend(lamp_report(0x60, 5, 8, 9));
    d.push(0xC0);
    let (r, _) = parse_descriptor(&d);
    assert_eq!(r.range_update, None);

    // The application ends with its collection.
    let mut d = lamp_array(vec![lamp_report(0x70, 6, 8, 1)]);
    d.extend(lamp_report(0x60, 5, 8, 9));
    let (r, _) = parse_descriptor(&d);
    assert!(r.control.is_some());
    assert_eq!(r.range_update, None);
}

#[test]
fn a_report_keeps_its_first_id() {
    let d = lamp_array(vec![lamp_report(0x70, 6, 8, 1), lamp_report(0x70, 9, 8, 4)]);
    let (r, _) = parse_descriptor(&d);
    assert_eq!(r.control, Some(ReportInfo { report_id: 6, size: 1 }));
}

#[test]
fn the_last_report_usage_of_a_collection_counts() {
    let mut report: Vec<u8> = vec![0x09, 0x60, 0x09, 0x70, 0x09, 0x99, 0xA1, 0x02, 0x85, 3];
    report.extend(feature(8, 1));
    report.push(0xC0);
    let (r, _) = parse_descriptor(&lamp_array(vec![report]));
    assert_eq!(r.control, Some(ReportInfo { report_id: 3, size: 1 }));
    assert_eq!(r.range_update, None);
}

#[test]
fn report_ids_are_one_byte() {
    let mut report: Vec<u8> = vec![0x09, 0x70, 0xA1, 0x02, 0x86, 0x05, 0x01];
    report.extend(feature(8, 1));
    report.push(0xC0);
    let (r, _) = parse_descriptor(&lamp_array(vec![report]));
    assert_eq!(r.control, Some(ReportInfo { report_id: 5, size: 1 }));
}

#[test]
fn an_rgb_led_has_its_channels_where_the_usages_stand() {
    let (r, leds) = parse_descriptor(&rgb_led(0x2A, &[0x53, 0x54, 0x55, 0x56], 0xB1));
    assert_eq!(r.control, None);
    assert_eq!(leds.len(), 1);
    assert_eq!(
        leds[0],
        LedRgbChannelBuilder {
            report_id: 0x2A,
            report_size: 4,
            red_offset: Some(0),
            blue_offset: Some(1),
            green_offset: Some(2),
            intensity_offset: Some(3),
            channel_size: 8,
            report_type: ReportType::Feature,
            red_logical_max: 255,
            green_logical_max: 255,
            blue_logical_max: 255,
            intensity_logical_max: Some(255),
        }
    );
}

#[test]
fn a_usage_range_stands_for_all_its_usages() {
    // Usage Minimum 0x53, Usage Maximum 0x55 instead of three usages.
    let mut d: Vec<u8> = vec![0x05, 0x08, 0x85, 1, 0x09, 0x52, 0xA1, 0x02];
    d.extend([0x19, 0x53, 0x29, 0x55, 0x25, 0x64, 0x75, 0x08, 0x95, 0x03, 0x91, 0x02]);
    d.extend([0xC0, 0xC0]);
    let (_, leds) = parse_descriptor(&d);
    assert_eq!(leds.len(), 1);
    assert_eq!(leds[0].red_offset, Some(0));
    assert_eq!(leds[0].blue_offset, Some(1));
    assert_eq!(leds[0].green_offset, Some(2));
    assert_eq!(leds[0].intensity_offset, None);
    assert_eq!(leds[0].intensity_logical_max, None);
    assert_eq!(leds[0].red_logical_max, 100);
    assert_eq!(leds[0].report_type, ReportType::Output);
    assert_eq!(leds[0].report_size, 3);
}

#[test]
fn an_empty_usage_range_stands_for_nothing() {
    let mut d: Vec<u8> = vec![0x05, 0x08, 0x85, 1, 0x09, 0x52, 0xA1, 0x02];
    d.extend([0x19, 0x55, 0x29, 0x53, 0x75, 0x08, 0x95, 0x03, 0xB1, 0x02, 0xC0, 0xC0]);
    let (_, leds) = parse_descriptor(&d);
    assert!(leds.is_empty());
}

#[test]
fn offsets_count_from_the_start_of_the_report() {
    // One byte of padding, the colors, and the intensity in an item of its own.
    let mut d: Vec<u8> = vec![0x05, 0x08, 0x85, 1, 0x09, 0x52, 0xA1, 0x02];
    d.extend(feature(8, 1));
    d.extend([0x09, 0x53, 0x09, 0x54, 0x09, 0x55, 0x26, 0xFF, 0x00, 0x95, 0x03, 0xB1, 0x02]);
    d.extend([0x09, 0x56, 0x25, 0x64, 0x95, 0x01, 0xB1, 0x02]);
    d.extend([0xC0, 0xC0]);
    let (_, leds) = parse_descriptor(&d);
    assert_eq!(leds[0].red_offset, Some(1));
    assert_eq!(leds[0].blue_offset, Some(2));
    assert_eq!(leds[0].green_offset, Some(3));
    assert_eq!(leds[0].intensity_offset, Some(4));
    assert_eq!(leds[0].intensity_logical_max, Some(100));
    assert_eq!(leds[0].report_size, 5);
}

#[test]
fn incomplete_rgb_leds_are_dropped() {
    let (_, leds) = parse_descriptor(&rgb_led(1, &[0x53, 0x54], 0xB1));
    assert!(leds.is_empty());
}

#[test]
fn rgb_leds_come_in_the_order_of_their_ids() {
    let mut d = rgb_led(9, &[0x53, 0x54, 0x55], 0xB1);
    d.extend(rgb_led(2, &[0x55, 0x54, 0x53], 0x81));
    let (_, leds) = parse_descriptor(&d);
    assert_eq!(leds.len(), 2);
    assert_eq!(leds[0].report_id, 2);
    assert_eq!(leds[0].green_offset, Some(0));
    assert_eq!(leds[0].report_type, ReportType::Input);
    assert_eq!(leds[1].report_id, 9);
    assert_eq!(leds[1].red_offset, Some(0));
}

#[test]
fn an_rgb_led_is_a_logical_collection() {
    let mut d = rgb_led(1, &[0x53, 0x54, 0x55], 0xB1);
    let at = d.iter().rposition(|b| *b == 0xA1).unwrap();
    d[at + 1] = 0x01;
    let (_, leds) = parse_descriptor(&d);
    assert!(leds.is_empty());
}

#[test]
fn negative_maxima_count_as_zero() {
    let usages = vec![UsageEntry::Single(0x53), UsageEntry::Min(0x54)];
    let b = place_channels(LedRgbChannelBuilder::default(), &usages, 12, 6, -5);
    assert_eq!(b.red_offset, Some(1));
    assert_eq!(b.channel_size, 6);
    assert_eq!(b.red_logical_max, 0);
    assert_eq!(b.blue_offset, None);
    assert_eq!(b.blue_logical_max, 255);
    assert!(!b.is_complete());
}

#[test]
fn a_repeated_channel_is_where_it_stands_last() {
    let usages = vec![UsageEntry::Single(0x53), UsageEntry::Single(0x54), UsageEntry::Single(0x53)];
    let b = place_channels(LedRgbChannelBuilder::default(), &usages, 0, 8, 255);
    assert_eq!(b.red_offset, Some(2));
    assert_eq!(b.blue_offset, Some(1));
}

#[test]
fn default_builders_are_unset() {
    let b = LedRgbChannelBuilder::default();
    assert_eq!((b.channel_size, b.red_logical_max, b.intensity_logical_max), (8, 255, None));
    assert_eq!(b.report_type, ReportType::Feature);
    assert!(!b.is_complete());
}

#[test]
fn a_descriptor_goes_on_where_the_last_one_stopped() {
    let whole = lamp_array(vec![lamp_report(0x60, 5, 8, 9), lamp_report(0x70, 6, 8, 1)]);
    let (expected, _) = parse_descriptor(&whole);
    // A cut-off item at the end says nothing.
    let mut longer = whole.clone();
    longer.extend([0x26, 0xFF]);
    assert_eq!(parse_descriptor(&longer).0, expected);
    // A long item and an unknown Global item say nothing either.
    let mut padded: Vec<u8> = vec![0xFE, 1, 0x20, 0xA1, 0x45, 0x01];
    padded.extend(&whole);
    assert_eq!(parse_descriptor(&padded).0, expected);
    // What comes after goes on from there.
    let mut more = whole.clone();
    more.extend(lamp_array(vec![lamp_report(0x50, 4, 8, 8)]));
    let (r, _) = parse_descriptor(&more);
    assert_eq!(r.control, expected.control);
    assert_eq!(r.multi_update, Some(ReportInfo { report_id: 4, size: 8 }));
}

#[test]
fn usages_hold_for_one_main_item() {
    // The usages stand before an item of padding and are gone for the next one.
    let mut d: Vec<u8> = vec![0x05, 0x08, 0x85, 1, 0x09, 0x52, 0xA1, 0x02];
    d.extend([0x09, 0x53, 0x09, 0x54, 0x75, 0x08, 0x95, 0x02, 0xB1, 0x02]);
    d.extend([0x95, 0x01, 0xB1, 0x02, 0x09, 0x55, 0xB1, 0x02, 0xC0, 0xC0]);
    let (_, leds) = parse_descriptor(&d);
    assert_eq!(leds[0].red_offset, Some(0));
    assert_eq!(leds[0].blue_offset, Some(1));
    assert_eq!(leds[0].green_offset, Some(3));
    assert_eq!(leds[0].report_size, 4);
}

#[test]
fn closing_too_many_collections_is_harmless() {
    let mut d: Vec<u8> = vec![0xC0, 0xC0];
    d.extend(lamp_array(vec![lamp_report(0x70, 6, 8, 1)]));
    let (r, _) = parse_descriptor(&d);
    assert!(r.control.is_some());
}
