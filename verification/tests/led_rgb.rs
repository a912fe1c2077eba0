//! LED Page RGB devices.

use hid_rgb_ctl::device::hidraw::{feature_buffer, hidiocgfeature, hidiocsfeature, received};
use hid_rgb_ctl::device::led_rgb::build_led_report;
use hid_rgb_ctl::device::session::Request;
use hid_rgb_ctl::error::{IoFailure, IoKind};
use hid_rgb_ctl::{Error, LedRgbDevice, LedRgbInfo, ReportType};

fn led(report_type: ReportType, intensity: bool) -> LedRgbInfo {
    LedRgbInfo {
        hidraw_path: "/dev/hidraw1".to_string(),
        name: "Mouse".to_string(),
        report_id: 0x2A,
        report_size: 5,
        red_offset: 1,
        blue_offset: 2,
        green_offset: 3,
        intensity_offset: if intensity { Some(4) } else { None },
        channel_size: 8,
        report_type,
        red_logical_max: 255,
        green_logical_max: 100,
        blue_logical_max: 0,
        intensity_logical_max: if intensity { Some(100) } else { None },
    }
}

#[test]
fn a_feature_report_is_set_by_ioctl() {
    let info = led(ReportType::Feature, true);
    let session = LedRgbDevice::new(&info).set_color(10, 255, 30, 128);
    assert!(session.fits());
    match session.request() {
        Some(Request::Open { path }) => assert_eq!(path, "/dev/hidraw1"),
        other => panic!("{other:?}"),
    }
    let session = session.resume(Ok(Vec::new()));
    assert!(session.fits());
    match session.request() {
        Some(Request::SetFeature { data }) => assert_eq!(data, vec![0x2A, 0, 10, 0, 100, 50]),
        other => panic!("{other:?}"),
    }
    let session = session.resume(Ok(Vec::new()));
    assert!(session.request().is_none());
    assert!(matches!(session.finish(), Some(Ok(()))));
}

#[test]
fn an_output_report_is_written() {
    let info = led(ReportType::Output, false);
    let session = LedRgbDevice::new(&info).set_color(1, 2, 3, 4).resume(Ok(Vec::new()));
    match session.request() {
        Some(Request::WriteOutput { data }) => assert_eq!(data, vec![0x2A, 0, 1, 0, 1, 0]),
        other => panic!("{other:?}"),
    }
    assert!(session.finish().is_none());
}

#[test]
fn an_input_report_cannot_be_sent() {
    let info = led(ReportType::Input, true);
    let session = LedRgbDevice::new(&info).set_color(1, 2, 3, 4).resume(Ok(Vec::new()));
    assert!(session.request().is_none());
    let session = session.resume(Ok(Vec::new()));
    assert!(matches!(session.finish(), Some(Err(Error::UnsupportedReportType))));
}

#[test]
fn failures_end_the_setting() {
    let info = led(ReportType::Feature, true);
    let denied = IoFailure { kind: IoKind::PermissionDenied, message: "denied".to_string() };
    let session = LedRgbDevice::new(&info).set_color(1, 2, 3, 4).resume(Err(denied.clone()));
    assert!(session.request().is_none());
    match session.finish() {
        Some(Err(Error::PermissionDenied { path })) => assert_eq!(path, "/dev/hidraw1"),
        other => panic!("{other:?}"),
    }
    let session = LedRgbDevice::new(&info).set_color(1, 2, 3, 4).resume(Ok(Vec::new()));
    let session = session.resume(Err(denied));
    match session.finish() {
        Some(Err(Error::Io(f))) => assert_eq!(f.message, "denied"),
        other => panic!("{other:?}"),
    }
}

#[test]
fn channels_outside_the_report_do_not_fit() {
    let mut info = led(ReportType::Feature, true);
    info.intensity_offset = Some(5);
    let session = LedRgbDevice::new(&info).set_color(1, 2, 3, 4);
    assert!(session.fits());
    assert!(!session.resume(Ok(Vec::new())).fits());
    let mut info = led(ReportType::Feature, false);
    info.green_offset = 9;
    assert!(!LedRgbDevice::new(&info).set_color(1, 2, 3, 4).resume(Ok(Vec::new())).fits());
}

#[test]
fn channels_in_one_byte_overwrite_each_other() {
    let mut info = led(ReportType::Feature, true);
    info.red_offset = 0;
    info.blue_offset = 0;
    info.green_offset = 0;
    info.intensity_offset = Some(0);
    info.intensity_logical_max = None;
    assert_eq!(build_led_report(&info, 1, 2, 3, 77), vec![0x2A, 77, 0, 0, 0, 0]);
}

#[test]
fn attributes_of_an_led_come_from_the_descriptor() {
    let info = led(ReportType::Feature, true);
    let dev = LedRgbDevice::new(&info);
    assert_eq!(dev.path(), "/dev/hidraw1");
    assert_eq!(dev.name(), "Mouse");
    assert_eq!(dev.summary(), "LED RGB");
    let a = dev.get_attributes();
    assert_eq!(a.name, "Mouse");
    assert_eq!(a.path, "/dev/hidraw1");
    assert_eq!(a.protocol, "LED Page RGB (Usage Page 0x08, Section 11.7)");
    assert_eq!((a.report_id, a.channel_size, a.has_intensity), (0x2A, 8, true));
}

#[test]
fn ioctl_numbers_hold_the_length() {
    assert_eq!(hidiocgfeature(0), 0xC000_4807);
    assert_eq!(hidiocsfeature(0), 0xC000_4806);
    assert_eq!(hidiocgfeature(23), 0xC017_4807);
    assert_eq!(hidiocsfeature(0x3FFF), 0xFFFF_4806);
}

#[test]
fn buffers_for_reading() {
    assert_eq!(feature_buffer(7, 3), vec![7, 0, 0, 0]);
    assert_eq!(feature_buffer(7, 0), vec![7]);
    assert_eq!(received(vec![1, 2, 3], 2), vec![1, 2]);
    assert_eq!(received(vec![1, 2, 3], 3), vec![1, 2, 3]);
    assert_eq!(received(vec![1, 2, 3], 9), vec![1, 2, 3]);
}
