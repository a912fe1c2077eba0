//! Conversations with LampArray devices.

use hid_rgb_ctl::device::lamp::{parse_attributes, parse_lamp_response};
use hid_rgb_ctl::device::multi_update::{
    build_batch_report, build_update_report, is_last_batch, slot_count,
};
use hid_rgb_ctl::device::scale::scale_u8;
use hid_rgb_ctl::device::session::{open_error, LampArraySession, Outcome, Request};
use hid_rgb_ctl::device::update::{
    build_control_report, build_first_lamp_request, build_lamp_request, build_range_report,
    check_ids, color_limits, scale_colors,
};
use hid_rgb_ctl::error::{IoFailure, IoKind};
use hid_rgb_ctl::{
    lamp_array_kind_name, Error, LampArrayDevice, LampArrayInfo, LampArrayReports, LampAttributes,
    LampColor, ReportInfo,
};

fn report(report_id: u8, size: usize) -> Option<ReportInfo> {
    Some(ReportInfo { report_id, size })
}

/// A device with all reports, and two lamps to a multi-update report.
fn full() -> LampArrayInfo {
    LampArrayInfo {
        hidraw_path: "/dev/hidraw3".to_string(),
        name: "Test Lamps".to_string(),
        reports: LampArrayReports {
            attributes: report(1, 22),
            attr_request: report(2, 2),
            attr_response: report(3, 28),
            multi_update: report(4, 14),
            range_update: report(5, 9),
            control: report(6, 1),
        },
    }
}

fn attributes_report(lamp_count: u16) -> Vec<u8> {
    let mut b = vec![1u8];
    b.extend(lamp_count.to_le_bytes());
    b.extend(300_000u32.to_le_bytes());
    b.extend(100_000u32.to_le_bytes());
    b.extend(20_000u32.to_le_bytes());
    b.extend(1u32.to_le_bytes());
    b.extend(33_000u32.to_le_bytes());
    b
}

fn lamp_report(id: u16, levels: [u8; 4], programmable: bool) -> Vec<u8> {
    let mut b = vec![3u8];
    b.extend(id.to_le_bytes());
    b.extend(10u32.to_le_bytes());
    b.extend(20u32.to_le_bytes());
    b.extend(30u32.to_le_bytes());
    b.extend(4_000u32.to_le_bytes());
    b.extend(1u32.to_le_bytes());
    b.extend(levels);
    b.push(if programmable { 1 } else { 0 });
    b.push(9);
    b
}

fn failure(kind: IoKind) -> IoFailure {
    IoFailure { kind, message: "broken".to_string() }
}

/// A device that answers with the given reports in turn, fails after `accesses` accesses, and
/// remembers what was asked of it.
struct Fake {
    answers: Vec<Vec<u8>>,
    accesses: usize,
    failure: IoKind,
    log: Vec<String>,
}

impl Fake {
    fn new(answers: Vec<Vec<u8>>) -> Fake {
        Fake { answers, accesses: 1000, failure: IoKind::Other, log: Vec::new() }
    }

    fn failing(answers: Vec<Vec<u8>>, accesses: usize, failure: IoKind) -> Fake {
        Fake { answers, accesses, failure, log: Vec::new() }
    }

    fn access(&mut self, request: Request) -> Result<Vec<u8>, IoFailure> {
        self.log.push(match &request {
            Request::Open { path } => format!("open {path}"),
            Request::GetFeature { report_id, size } => format!("get {report_id} {size}"),
            Request::SetFeature { data } => format!("set {data:?}"),
            Request::WriteOutput { data } => format!("write {data:?}"),
        });
        if self.accesses == 0 {
            return Err(failure(self.failure));
        }
        self.accesses -= 1;
        match request {
            Request::GetFeature { .. } => Ok(self.answers.remove(0)),
            _ => Ok(Vec::new()),
        }
    }

    fn run(&mut self, session: LampArraySession) -> Result<Outcome, Error> {
        let mut session = session;
        loop {
            assert!(session.fits());
            match session.request() {
                Some(request) => {
                    let reply = self.access(request);
                    session = session.resume(reply);
                }
                None => return session.finish().unwrap(),
            }
        }
    }
}

#[test]
fn kinds_have_names() {
    assert_eq!(lamp_array_kind_name(0), "Undefined");
    assert_eq!(lamp_array_kind_name(1), "Keyboard");
    assert_eq!(lamp_array_kind_name(11), "Headset");
    assert_eq!(lamp_array_kind_name(12), "Reserved");
    assert_eq!(lamp_array_kind_name(0xFF), "Reserved");
    assert_eq!(lamp_array_kind_name(0x100), "Vendor-defined");
    assert_eq!(lamp_array_kind_name(u32::MAX), "Vendor-defined");
}

#[test]
fn scaling_is_proportional() {
    assert_eq!(scale_u8(200, 0), 0);
    assert_eq!(scale_u8(200, 255), 200);
    assert_eq!(scale_u8(200, 1000), 200);
    assert_eq!(scale_u8(255, 100), 100);
    assert_eq!(scale_u8(128, 100), 50);
    assert_eq!(scale_u8(0, 100), 0);
    assert_eq!(scale_u8(127, 1), 0);
    assert_eq!(scale_u8(128, 1), 1);
    assert_eq!(scale_u8(1, 254), 1);
}

#[test]
fn lamp_responses_are_decoded() {
    let lamp = parse_lamp_response(&lamp_report(0x0102, [1, 2, 3, 4], true)).unwrap();
    assert_eq!(
        lamp,
        LampAttributes {
            lamp_id: 0x0102,
            position_x_um: 10,
            position_y_um: 20,
            position_z_um: 30,
            update_latency_us: 4_000,
            lamp_purposes: 1,
            red_level_count: 1,
            green_level_count: 2,
            blue_level_count: 3,
            intensity_level_count: 4,
            is_programmable: true,
            input_binding: 9,
        }
    );
    let mut long = lamp_report(0, [1, 1, 1, 1], false);
    long.push(77);
    assert!(!parse_lamp_response(&long).unwrap().is_programmable);
}

#[test]
fn short_reports_are_truncated() {
    let mut short = lamp_report(0, [1, 1, 1, 1], true);
    short.pop();
    match parse_lamp_response(&short) {
        Err(Error::TruncatedReport { report_name, expected, got }) => {
            assert_eq!((report_name, expected, got), ("LampAttributesResponse", 29, 28));
        }
        other => panic!("{other:?}"),
    }
    let mut short = attributes_report(1);
    short.truncate(22);
    match parse_attributes(&short) {
        Err(Error::TruncatedReport { report_name, expected, got }) => {
            assert_eq!((report_name, expected, got), ("LampArrayAttributes", 23, 22));
        }
        other => panic!("{other:?}"),
    }
}

#[test]
fn attributes_are_read() {
    let info = full();
    let dev = LampArrayDevice::new(&info);
    assert_eq!(dev.path(), "/dev/hidraw3");
    assert_eq!(dev.name(), "Test Lamps");
    let mut fake = Fake::new(vec![attributes_report(5)]);
    match fake.run(dev.get_attributes()) {
        Ok(Outcome::Attributes(a)) => {
            assert_eq!(a.lamp_count, 5);
            assert_eq!((a.width_um, a.height_um, a.depth_um), (300_000, 100_000, 20_000));
            assert_eq!((a.kind, a.kind_name), (1, "Keyboard"));
            assert_eq!(a.min_update_interval_us, 33_000);
        }
        other => panic!("{other:?}"),
    }
    assert_eq!(fake.log, vec!["open /dev/hidraw3", "get 1 22"]);
}

#[test]
fn one_lamp_is_asked_for() {
    let info = full();
    let mut fake = Fake::new(vec![lamp_report(258, [7, 7, 7, 7], true)]);
    match fake.run(LampArrayDevice::new(&info).get_lamp(258)) {
        Ok(Outcome::Lamp(lamp)) => assert_eq!(lamp.lamp_id, 258),
        other => panic!("{other:?}"),
    }
    assert_eq!(fake.log, vec!["open /dev/hidraw3", "set [2, 2, 1]", "get 3 28"]);
}

#[test]
fn another_lamps_answer_is_refused() {
    let info = full();
    let mut fake = Fake::new(vec![lamp_report(4, [7, 7, 7, 7], true)]);
    match fake.run(LampArrayDevice::new(&info).get_lamp(3)) {
        Err(Error::LampIdMismatch { expected, got }) => assert_eq!((expected, got), (3, 4)),
        other => panic!("{other:?}"),
    }
}

#[test]
fn everything_is_read_with_one_request() {
    let info = full();
    let mut fake = Fake::new(vec![
        attributes_report(2),
        lamp_report(0, [1, 2, 3, 4], true),
        lamp_report(1, [5, 6, 7, 8], false),
    ]);
    match fake.run(LampArrayDevice::new(&info).get_attributes_and_lamps()) {
        Ok(Outcome::Everything(a, lamps)) => {
            assert_eq!(a.lamp_count, 2);
            assert_eq!(lamps.len(), 2);
            assert_eq!(lamps[0].red_level_count, 1);
            assert_eq!(lamps[1].intensity_level_count, 8);
        }
        other => panic!("{other:?}"),
    }
    assert_eq!(
        fake.log,
        vec!["open /dev/hidraw3", "get 1 22", "set [2, 0, 0]", "get 3 28", "get 3 28"]
    );
}

#[test]
fn lamps_come_in_the_order_of_their_ids() {
    let info = full();
    let mut fake = Fake::new(vec![
        attributes_report(2),
        lamp_report(0, [1, 2, 3, 4], true),
        lamp_report(0, [5, 6, 7, 8], false),
    ]);
    match fake.run(LampArrayDevice::new(&info).get_attributes_and_lamps()) {
        Err(Error::LampIdMismatch { expected, got }) => assert_eq!((expected, got), (1, 0)),
        other => panic!("{other:?}"),
    }
}

#[test]
fn a_device_without_lamps_is_not_asked_for_any() {
    let info = full();
    let mut fake = Fake::new(vec![attributes_report(0)]);
    match fake.run(LampArrayDevice::new(&info).get_attributes_and_lamps()) {
        Ok(Outcome::Everything(_, lamps)) => assert!(lamps.is_empty()),
        other => panic!("{other:?}"),
    }
    assert_eq!(fake.log, vec!["open /dev/hidraw3", "get 1 22"]);
}

#[test]
fn the_mode_is_switched() {
    let info = full();
    for (enabled, byte) in [(true, 1), (false, 0)] {
        let mut fake = Fake::new(Vec::new());
        let r = fake.run(LampArrayDevice::new(&info).set_autonomous(enabled));
        assert!(matches!(r, Ok(Outcome::Done)));
        assert_eq!(fake.log, vec!["open /dev/hidraw3".to_string(), format!("set [6, {byte}]")]);
    }
}

#[test]
fn a_uniform_color_is_scaled_to_the_smallest_levels() {
    let info = full();
    // The fixed-color lamp counts for the intensity alone.
    let mut fake = Fake::new(vec![
        attributes_report(3),
        lamp_report(0, [255, 100, 255, 255], true),
        lamp_report(1, [200, 255, 255, 200], true),
        lamp_report(2, [1, 1, 1, 100], false),
    ]);
    let r = fake.run(LampArrayDevice::new(&info).set_color(255, 255, 128, 255));
    assert!(matches!(r, Ok(Outcome::Done)));
    assert_eq!(
        fake.log,
        vec![
            "open /dev/hidraw3",
            "set [6, 0]",
            "get 1 22",
            "set [2, 0, 0]",
            "get 3 28",
            "get 3 28",
            "get 3 28",
            "set [5, 1, 0, 0, 2, 0, 200, 100, 128, 100]",
        ]
    );
}

#[test]
fn a_color_on_no_lamps_is_done_at_once() {
    let info = full();
    let mut fake = Fake::new(vec![attributes_report(0)]);
    let r = fake.run(LampArrayDevice::new(&info).set_color(1, 2, 3, 4));
    assert!(matches!(r, Ok(Outcome::Done)));
    assert_eq!(fake.log, vec!["open /dev/hidraw3", "set [6, 0]", "get 1 22"]);
}

#[test]
fn without_a_control_report_the_mode_is_left_alone() {
    let mut info = full();
    info.reports.control = None;
    let mut fake = Fake::new(vec![attributes_report(0)]);
    let r = fake.run(LampArrayDevice::new(&info).set_color(1, 2, 3, 4));
    assert!(matches!(r, Ok(Outcome::Done)));
    assert_eq!(fake.log, vec!["open /dev/hidraw3", "get 1 22"]);
}

fn color(lamp_id: u16, red: u8, green: u8, blue: u8, intensity: u8) -> LampColor {
    LampColor { lamp_id, red, green, blue, intensity }
}

#[test]
fn lamp_colors_go_out_in_batches() {
    let info = full();
    let mut fake = Fake::new(vec![
        attributes_report(3),
        lamp_report(0, [255, 255, 255, 255], true),
        lamp_report(1, [100, 255, 255, 100], true),
        lamp_report(2, [255, 255, 255, 50], false),
    ]);
    let colors = [
        color(2, 10, 20, 30, 255),
        color(0, 1, 2, 3, 4),
        color(1, 255, 5, 6, 128),
    ];
    let r = fake.run(LampArrayDevice::new(&info).set_lamp_colors(&colors));
    assert!(matches!(r, Ok(Outcome::Done)));
    assert_eq!(fake.log.len(), 9);
    assert_eq!(
        fake.log[7..],
        [
            // Two lamps, not complete; the fixed-color lamp without a color.
            "set [4, 2, 0, 2, 0, 0, 0, 0, 0, 0, 50, 1, 2, 3, 4]",
            // One lamp, complete, scaled to its own levels.
            "set [4, 1, 1, 1, 0, 0, 0, 100, 5, 6, 50, 0, 0, 0, 0]",
        ]
    );
}

#[test]
fn no_lamp_colors_are_done_without_a_device() {
    let info = full();
    let mut fake = Fake::new(Vec::new());
    let r = fake.run(LampArrayDevice::new(&info).set_lamp_colors(&[]));
    assert!(matches!(r, Ok(Outcome::Done)));
    assert!(fake.log.is_empty());
}

#[test]
fn lamp_ids_are_checked_before_anything_is_sent() {
    let info = full();
    let answers = vec![
        attributes_report(2),
        lamp_report(0, [255, 255, 255, 255], true),
        lamp_report(1, [255, 255, 255, 255], true),
    ];
    let mut fake = Fake::new(answers.clone());
    let colors = [color(1, 0, 0, 0, 0), color(1, 0, 0, 0, 0), color(2, 0, 0, 0, 0)];
    match fake.run(LampArrayDevice::new(&info).set_lamp_colors(&colors)) {
        Err(Error::LampIdOutOfRange { lamp_id, lamp_count }) => {
            assert_eq!((lamp_id, lamp_count), (2, 2));
        }
        other => panic!("{other:?}"),
    }
    assert_eq!(fake.log.len(), 6);

    let mut fake = Fake::new(answers);
    match fake.run(LampArrayDevice::new(&info).set_lamp_colors(&colors[..2])) {
        Err(Error::DuplicateLampId { lamp_id }) => assert_eq!(lamp_id, 1),
        other => panic!("{other:?}"),
    }
    assert_eq!(fake.log.len(), 6);
}

#[test]
fn missing_reports_are_named() {
    let mut info = full();
    info.reports = LampArrayReports {
        attributes: None,
        attr_request: None,
        attr_response: None,
        multi_update: None,
        range_update: None,
        control: None,
    };
    let dev = LampArrayDevice::new(&info);
    let cases: Vec<(LampArraySession, &str, usize)> = vec![
        (dev.get_attributes(), "attributes", 1),
        (dev.get_lamp(0), "attr_request", 1),
        (dev.get_attributes_and_lamps(), "attributes", 1),
        (dev.set_autonomous(true), "control", 1),
        (dev.set_color(0, 0, 0, 0), "range_update", 0),
        (dev.set_lamp_colors(&[color(0, 0, 0, 0, 0)]), "multi_update", 0),
    ];
    for (session, name, accesses) in cases {
        let mut fake = Fake::new(Vec::new());
        match fake.run(session) {
            Err(Error::MissingReport { report_name }) => assert_eq!(report_name, name),
            other => panic!("{other:?}"),
        }
        assert_eq!(fake.log.len(), accesses);
    }
}

#[test]
fn the_response_report_is_missed_after_the_request() {
    let mut info = full();
    info.reports.attr_response = None;
    let mut fake = Fake::new(Vec::new());
    match fake.run(LampArrayDevice::new(&info).get_lamp(0)) {
        Err(Error::MissingReport { report_name }) => assert_eq!(report_name, "attr_response"),
        other => panic!("{other:?}"),
    }
    assert_eq!(fake.log, vec!["open /dev/hidraw3", "set [2, 0, 0]"]);
}

#[test]
fn a_multi_update_without_room_is_missing() {
    let mut info = full();
    info.reports.multi_update = report(4, 7);
    let mut fake = Fake::new(Vec::new());
    match fake.run(LampArrayDevice::new(&info).set_lamp_colors(&[color(0, 0, 0, 0, 0)])) {
        Err(Error::MissingReport { report_name }) => {
            assert_eq!(report_name, "multi_update (invalid size)");
        }
        other => panic!("{other:?}"),
    }
    assert!(fake.log.is_empty());
}

#[test]
fn a_device_that_cannot_be_opened_says_why() {
    let info = full();
    let dev = LampArrayDevice::new(&info);
    let mut fake = Fake::failing(Vec::new(), 0, IoKind::PermissionDenied);
    match fake.run(dev.get_attributes()) {
        Err(Error::PermissionDenied { path }) => assert_eq!(path, "/dev/hidraw3"),
        other => panic!("{other:?}"),
    }
    let mut fake = Fake::failing(Vec::new(), 0, IoKind::NotFound);
    match fake.run(dev.get_attributes()) {
        Err(Error::DeviceNotFound { path }) => assert_eq!(path, "/dev/hidraw3"),
        other => panic!("{other:?}"),
    }
    let mut fake = Fake::failing(Vec::new(), 0, IoKind::Other);
    match fake.run(dev.get_attributes()) {
        Err(Error::Io(f)) => assert_eq!(f.message, "broken"),
        other => panic!("{other:?}"),
    }
    assert!(matches!(open_error("/dev/x", failure(IoKind::Other)), Error::Io(_)));
}

#[test]
fn a_failed_access_ends_the_conversation() {
    let info = full();
    let dev = LampArrayDevice::new(&info);
    for n in 1..4 {
        let answers = vec![attributes_report(1), lamp_report(0, [1, 1, 1, 1], true)];
        let mut fake = Fake::failing(answers, n, IoKind::PermissionDenied);
        match fake.run(dev.set_color(1, 2, 3, 4)) {
            Err(Error::Io(f)) => assert_eq!(f.kind, IoKind::PermissionDenied),
            other => panic!("{other:?}"),
        }
        assert_eq!(fake.log.len(), n + 1);
    }
}

#[test]
fn what_is_over_stays_over() {
    let info = full();
    let session = LampArrayDevice::new(&info).set_lamp_colors(&[]);
    assert!(session.request().is_none());
    let session = session.resume(Err(failure(IoKind::Other)));
    assert!(session.request().is_none());
    assert!(matches!(session.finish(), Some(Ok(Outcome::Done))));
    assert!(LampArrayDevice::new(&info).get_attributes().finish().is_none());
}

#[test]
fn reports_too_short_for_their_fields_do_not_fit() {
    let mut info = full();
    info.reports.control = report(6, 0);
    let session = LampArrayDevice::new(&info).set_autonomous(true);
    assert!(session.fits());
    assert!(!session.resume(Ok(Vec::new())).fits());

    let mut info = full();
    info.reports.attr_request = report(2, 1);
    let session = LampArrayDevice::new(&info).get_lamp(0).resume(Ok(Vec::new()));
    assert!(!session.fits());

    let mut info = full();
    info.reports.control = None;
    info.reports.range_update = report(5, 8);
    let mut session = LampArrayDevice::new(&info).set_color(1, 2, 3, 4);
    for reply in [Vec::new(), attributes_report(1), Vec::new(), lamp_report(0, [1; 4], true)] {
        assert!(session.fits());
        session = session.resume(Ok(reply));
    }
    assert!(!session.fits());
}

#[test]
fn summaries_tell_the_update_reports() {
    let mut info = full();
    assert_eq!(LampArrayDevice::new(&info).summary(), "LampArray (range+multi update)");
    info.reports.multi_update = None;
    assert_eq!(LampArrayDevice::new(&info).summary(), "LampArray (range update)");
    info.reports.range_update = None;
    assert_eq!(LampArrayDevice::new(&info).summary(), "LampArray");
    info.reports.multi_update = report(4, 8);
    assert_eq!(LampArrayDevice::new(&info).summary(), "LampArray (multi update)");
}

#[test]
fn report_layouts() {
    assert_eq!(build_control_report(6, 3, true), vec![6, 1, 0, 0]);
    assert_eq!(build_lamp_request(2, 4, 0x0203), vec![2, 3, 2, 0, 0]);
    assert_eq!(build_first_lamp_request(2, 2), vec![2, 0, 0]);
    assert_eq!(build_first_lamp_request(2, 0), vec![2]);
    assert_eq!(
        build_range_report(5, 10, 0x0104, 6, 7, 8, 9),
        vec![5, 1, 0, 0, 4, 1, 6, 7, 8, 9, 0]
    );
    assert_eq!(slot_count(0), 0);
    assert_eq!(slot_count(7), 0);
    assert_eq!(slot_count(8), 1);
    assert_eq!(slot_count(50), 8);
    let colors = vec![color(0x0102, 3, 4, 5, 6), color(7, 8, 9, 10, 11), color(1, 1, 1, 1, 1)];
    assert_eq!(
        build_batch_report(4, 15, &colors, 0, 2, false),
        vec![4, 2, 0, 2, 1, 7, 0, 3, 4, 5, 6, 8, 9, 10, 11, 0]
    );
    assert_eq!(
        build_update_report(4, 14, &colors, 1),
        vec![4, 1, 1, 1, 0, 0, 0, 1, 1, 1, 1, 0, 0, 0, 0]
    );
    assert!(!is_last_batch(3, 2, 0));
    assert!(is_last_batch(3, 2, 1));
    assert!(is_last_batch(2, 2, 0));
}

fn lamp(levels: [u8; 4], programmable: bool) -> LampAttributes {
    parse_lamp_response(&lamp_report(0, levels, programmable)).unwrap()
}

#[test]
fn level_limits_are_minima() {
    assert_eq!(color_limits(&Vec::new()), (255, 255, 255, 255));
    assert_eq!(
        color_limits(&vec![lamp([9, 8, 7, 6], true), lamp([1, 1, 1, 5], false)]),
        (9, 8, 7, 5)
    );
    assert_eq!(color_limits(&vec![lamp([0, 0, 0, 0], false)]), (255, 255, 255, 0));
}

#[test]
fn colors_are_checked_and_scaled() {
    assert!(check_ids(&vec![color(0, 1, 2, 3, 4), color(1, 1, 2, 3, 4)], 2).is_ok());
    assert!(check_ids(&Vec::new(), 0).is_ok());
    assert!(matches!(
        check_ids(&vec![color(0, 1, 2, 3, 4)], 0),
        Err(Error::LampIdOutOfRange { lamp_id: 0, lamp_count: 0 })
    ));
    let lamps = vec![lamp([100, 50, 10, 1], true), lamp([100, 50, 10, 100], false)];
    assert_eq!(
        scale_colors(&vec![color(0, 255, 255, 255, 255), color(1, 255, 255, 255, 128)], &lamps),
        vec![color(0, 100, 50, 10, 1), color(1, 0, 0, 0, 50)]
    );
}

#[test]
fn scaling_keeps_the_order() {
    for max in [1, 2, 50, 100, 254, 255, 300] {
        for v in 0..255u8 {
            assert!(scale_u8(v, max) <= scale_u8(v + 1, max));
            assert!(scale_u8(v, max) as u32 <= max);
        }
        assert_eq!(scale_u8(255, max) as u32, max.min(255));
    }
}

#[test]
fn the_lamp_count_is_one_byte() {
    let colors: Vec<LampColor> = (0..256).map(|i| color(i, 1, 2, 3, 4)).collect();
    let report = build_update_report(4, 2 + 6 * 256, &colors, 0);
    assert_eq!(report.len(), 3 + 6 * 256);
    assert_eq!((report[1], report[2]), (0, 1));
    assert_eq!((report[3 + 2 * 255], report[4 + 2 * 255]), (255, 0));
    let report = build_update_report(4, 2 + 6 * 255, &colors, 0);
    assert_eq!((report[1], report[2]), (255, 0));
    let report = build_update_report(4, 2 + 6 * 255, &colors, 1);
    assert_eq!((report[1], report[2], report[3]), (1, 1, 255));
}
