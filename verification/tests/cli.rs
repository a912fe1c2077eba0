//! The command line.

use hid_rgb_ctl::cli::args::{
    parse_args, parse_set_args, parse_set_lamp_args, read_auto_state, read_color_argument,
    read_command_word, read_lamp_argument, require_text, Args, Command, Invocation,
};
use hid_rgb_ctl::cli::color::{find_preset, parse_color, preset_names};
use hid_rgb_ctl::cli::command::{
    auto_message, error_lines, find_device, lamp_array_lines, led_rgb_lines, list_lines, plan,
    plain_error_line, set_lamp_message, set_message, Lengths, Step,
};
use hid_rgb_ctl::error::{IoFailure, IoKind};
use hid_rgb_ctl::text::{decimal_text, hex2_text, parse_hex2, parse_number, same};
use hid_rgb_ctl::{
    DeviceInfo, Error, LampArrayAttributes, LampArrayInfo, LampArrayReports, LampAttributes,
    LampColor, LedRgbAttributes, LedRgbInfo, ReportInfo, ReportType,
};

fn texts(args: &[&str]) -> Vec<String> {
    args.iter().map(|s| s.to_string()).collect()
}

fn color(args: &[&str]) -> Option<(u8, u8, u8)> {
    parse_color(&texts(args))
}

fn parse(args: &[&str]) -> Result<Invocation, Error> {
    parse_args(&mut lexopt::Parser::from_args(args.iter().copied()))
}

fn run_args(args: &[&str]) -> Args {
    match parse(args) {
        Ok(Invocation::Run(a)) => a,
        other => panic!("{other:?}"),
    }
}

fn complaint(args: &[&str]) -> String {
    match parse(args) {
        Err(e) => e.message(),
        other => panic!("{other:?}"),
    }
}

#[test]
fn numbers_are_written() {
    assert_eq!(decimal_text(0), "0");
    assert_eq!(decimal_text(9), "9");
    assert_eq!(decimal_text(10), "10");
    assert_eq!(decimal_text(u64::MAX), "18446744073709551615");
    assert_eq!(hex2_text(0), "00");
    assert_eq!(hex2_text(0x2A), "2a");
    assert_eq!(hex2_text(255), "ff");
}

#[test]
fn numbers_are_read() {
    assert_eq!(parse_number("255", 10, 255), Some(255));
    assert_eq!(parse_number("256", 10, 255), None);
    assert_eq!(parse_number("+7", 10, 255), Some(7));
    assert_eq!(parse_number("0000000000000255", 10, 255), Some(255));
    assert_eq!(parse_number("", 10, 255), None);
    assert_eq!(parse_number("+", 10, 255), None);
    assert_eq!(parse_number("-1", 10, 255), None);
    assert_eq!(parse_number("++1", 10, 255), None);
    assert_eq!(parse_number("1 ", 10, 255), None);
    assert_eq!(parse_number("99999999999999999999", 10, u32::MAX), None);
    assert_eq!(parse_number("4294967295", 10, u32::MAX), Some(u32::MAX));
    assert_eq!(parse_number("fF", 16, 255), Some(255));
    assert_eq!(parse_number("+f", 16, 255), Some(15));
    assert_eq!(parse_number("g0", 16, 255), None);
    assert_eq!(parse_hex2("fF"), Some(255));
    assert_eq!(parse_hex2("07"), Some(7));
    assert_eq!(parse_hex2("+f"), None);
    assert_eq!(parse_hex2("g0"), None);
    assert!(same("a", "a") && !same("a", "b"));
}

#[test]
fn presets_are_found_in_any_case() {
    assert_eq!(
        preset_names(),
        "red, green, blue, white, cyan, yellow, orange, purple, pink, off"
    );
    assert_eq!(find_preset("red"), Some((255, 0, 0)));
    assert_eq!(find_preset("GREEN"), Some((0, 255, 0)));
    assert_eq!(find_preset("Blue"), Some((0, 0, 255)));
    assert_eq!(find_preset("white"), Some((255, 255, 255)));
    assert_eq!(find_preset("cyan"), Some((0, 255, 255)));
    assert_eq!(find_preset("yellow"), Some((255, 255, 0)));
    assert_eq!(find_preset("oRaNgE"), Some((255, 165, 0)));
    assert_eq!(find_preset("purple"), Some((128, 0, 255)));
    assert_eq!(find_preset("PINK"), Some((255, 105, 180)));
    assert_eq!(find_preset("off"), Some((0, 0, 0)));
    assert_eq!(find_preset("magenta"), None);
    assert_eq!(find_preset(""), None);
    assert_eq!(find_preset("red "), None);
}

#[test]
fn colors_are_read() {
    assert_eq!(color(&["red"]), Some((255, 0, 0)));
    assert_eq!(color(&["ff6400"]), Some((255, 100, 0)));
    assert_eq!(color(&["#FF6400"]), Some((255, 100, 0)));
    assert_eq!(color(&["255", "165", "0"]), Some((255, 165, 0)));
    assert_eq!(color(&["+f+f+f"]), None);
    assert_eq!(color(&["+f6400"]), None);
    assert_eq!(color(&["ff64+0"]), None);
    assert_eq!(color(&["#+f6400"]), None);
    assert_eq!(color(&["aBcDeF"]), Some((0xAB, 0xCD, 0xEF)));
    assert_eq!(color(&["##ff6400"]), None);
    assert_eq!(color(&["ff640"]), None);
    assert_eq!(color(&["ff64000"]), None);
    assert_eq!(color(&["gg6400"]), None);
    assert_eq!(color(&["\u{e9}\u{e9}\u{e9}"]), None);
    assert_eq!(color(&["\u{e9}00000"]), None);
    assert_eq!(color(&["#red"]), None);
    assert_eq!(color(&["256", "0", "0"]), None);
    assert_eq!(color(&["1", "2"]), None);
    assert_eq!(color(&[]), None);
    assert_eq!(color(&["1", "2", "3", "4"]), None);
}

#[test]
fn every_color_has_a_code() {
    for (r, g, b) in [(0, 0, 0), (1, 2, 3), (255, 128, 7), (0xAB, 0xCD, 0xEF)] {
        let code = format!("{}{}{}", hex2_text(r), hex2_text(g), hex2_text(b));
        assert_eq!(color(&[&code]), Some((r, g, b)));
        assert_eq!(color(&[&format!("#{code}")]), Some((r, g, b)));
        let decimal = [decimal_text(r as u64), decimal_text(g as u64), decimal_text(b as u64)];
        assert_eq!(parse_color(&decimal), Some((r, g, b)));
    }
}

#[test]
fn subcommands_without_arguments() {
    let a = run_args(&["list"]);
    assert!(a.path.is_none());
    assert!(matches!(a.command, Some(Command::List)));
    let a = run_args(&["-p", "/dev/hidraw1", "get"]);
    assert_eq!(a.path.as_deref(), Some("/dev/hidraw1"));
    assert!(matches!(a.command, Some(Command::Get)));
    let a = run_args(&["get", "--path=/dev/hidraw2", "-p/dev/hidraw3"]);
    assert_eq!(a.path.as_deref(), Some("/dev/hidraw3"));
    let a = run_args(&[]);
    assert!(a.path.is_none() && a.command.is_none());
}

#[test]
fn set_takes_colors_and_an_intensity() {
    match run_args(&["set", "255", "-i", "128", "0", "7"]).command {
        Some(Command::SetColor { color, intensity }) => {
            assert_eq!(color, texts(&["255", "0", "7"]));
            assert_eq!(intensity, 128);
        }
        other => panic!("{other:?}"),
    }
    match run_args(&["set", "cyan", "--intensity=+9"]).command {
        Some(Command::SetColor { color, intensity }) => {
            assert_eq!(color, texts(&["cyan"]));
            assert_eq!(intensity, 9);
        }
        other => panic!("{other:?}"),
    }
    match run_args(&["set", "--", "-i"]).command {
        Some(Command::SetColor { color, intensity }) => {
            assert_eq!(color, texts(&["-i"]));
            assert_eq!(intensity, 255);
        }
        other => panic!("{other:?}"),
    }
}

#[test]
fn set_lamp_takes_pairs() {
    match run_args(&["set-lamp", "0:red", "-i7", "65535:a:b"]).command {
        Some(Command::SetLamp { lamps, intensity }) => {
            assert_eq!(lamps, vec![(0, "red".to_string()), (65535, "a:b".to_string())]);
            assert_eq!(intensity, 7);
        }
        other => panic!("{other:?}"),
    }
}

#[test]
fn auto_takes_a_state() {
    match run_args(&["auto", "on"]).command {
        Some(Command::Auto { state }) => assert_eq!(state, "on"),
        other => panic!("{other:?}"),
    }
    match run_args(&["auto", "off", "-p", "x"]).command {
        Some(Command::Auto { state }) => assert_eq!(state, "off"),
        other => panic!("{other:?}"),
    }
}

#[test]
fn version_and_help_come_first() {
    assert!(matches!(parse(&["-V"]), Ok(Invocation::Version)));
    assert!(matches!(parse(&["--version", "--nonsense"]), Ok(Invocation::Version)));
    assert!(matches!(parse(&["list", "-h"]), Ok(Invocation::Help)));
    assert!(matches!(parse(&["--help"]), Ok(Invocation::Help)));
}

#[test]
fn wrong_command_lines_are_refused() {
    assert_eq!(complaint(&["-x"]), "invalid option '-x'");
    assert_eq!(complaint(&["--frobnicate"]), "invalid option '--frobnicate'");
    assert_eq!(complaint(&["set", "-V"]), "invalid option '-V'");
    assert_eq!(complaint(&["set-lamp", "--path", "x"]), "invalid option '--path'");
    assert_eq!(complaint(&["list", "get"]), "unexpected argument \"get\"");
    assert_eq!(complaint(&["paint"]), "unknown command: paint");
    assert_eq!(complaint(&["-p"]), "missing argument for option '-p'");
    assert_eq!(complaint(&["set", "--intensity"]), "missing argument for option '--intensity'");
    assert_eq!(
        complaint(&["set", "red", "-i", "256"]),
        "cannot parse argument \"256\": number too large to fit in target type"
    );
    assert_eq!(
        complaint(&["set-lamp", "red"]),
        "set-lamp arguments must be in ID:COLOR format (e.g. 0:red)"
    );
    assert_eq!(complaint(&["set-lamp", "x:red"]), "lamp ID must be a non-negative integer");
    assert_eq!(complaint(&["set-lamp", "65536:red"]), "lamp ID must be a non-negative integer");
    assert_eq!(complaint(&["auto"]), "auto command requires 'on' or 'off'");
    assert_eq!(complaint(&["auto", "ON"]), "auto: expected 'on' or 'off', got 'ON'");
}

#[test]
fn errors_keep_their_kind() {
    assert!(matches!(parse(&["-x"]), Err(Error::Arg(_))));
    assert!(matches!(parse(&["set-lamp", "red"]), Err(Error::Arg(_))));
    assert!(matches!(parse(&["paint"]), Err(Error::InvalidArgument(_))));
    assert!(matches!(parse(&["auto"]), Err(Error::InvalidArgument(_))));
}

#[test]
fn subcommand_arguments_go_to_the_end() {
    let mut p = lexopt::Parser::from_args(["red", "-i", "5"]);
    let (color, intensity) = parse_set_args(&mut p).unwrap();
    assert_eq!((color, intensity), (texts(&["red"]), 5));
    assert!(p.next().unwrap().is_none());
    let mut p = lexopt::Parser::from_args(["1:x"]);
    let (lamps, intensity) = parse_set_lamp_args(&mut p).unwrap();
    assert_eq!((lamps, intensity), (vec![(1, "x".to_string())], 255));
}

#[test]
fn single_arguments() {
    assert_eq!(read_color_argument(Some("x".to_string())).unwrap(), "x");
    assert_eq!(read_color_argument(None).unwrap_err().message(), "invalid UTF-8 in color argument");
    assert_eq!(read_lamp_argument(Some("7:".to_string())).unwrap(), (7, String::new()));
    assert_eq!(
        read_lamp_argument(None).unwrap_err().message(),
        "invalid UTF-8 in set-lamp argument"
    );
    assert!(matches!(read_lamp_argument(Some(":red".to_string())), Err(Error::Arg(_))));
    assert_eq!(read_auto_state(Some("off".to_string())).unwrap(), "off");
    assert_eq!(read_auto_state(None).unwrap_err().message(), "invalid UTF-8 in auto state");
    assert!(read_command_word(Some("set-lamp".to_string())).is_ok());
    assert!(read_command_word(Some("set_lamp".to_string())).is_err());
    match read_command_word(None) {
        Err(e) => assert_eq!(e.message(), "invalid UTF-8 in command"),
        Ok(_) => panic!("a command without text"),
    }
    assert_eq!(require_text(Some("p".to_string()), "no").unwrap(), "p");
    assert_eq!(require_text(None, "no").unwrap_err().message(), "no");
}

fn report(report_id: u8, size: usize) -> Option<ReportInfo> {
    Some(ReportInfo { report_id, size })
}

fn lamps_at(path: &str) -> DeviceInfo {
    DeviceInfo::LampArray(LampArrayInfo {
        hidraw_path: path.to_string(),
        name: "Keyboard".to_string(),
        reports: LampArrayReports {
            attributes: report(1, 22),
            attr_request: report(2, 2),
            attr_response: report(3, 28),
            multi_update: None,
            range_update: report(5, 9),
            control: report(6, 1),
        },
    })
}

fn led_at(path: &str) -> DeviceInfo {
    DeviceInfo::LedRgb(LedRgbInfo {
        hidraw_path: path.to_string(),
        name: "Mouse".to_string(),
        report_id: 10,
        report_size: 3,
        red_offset: 0,
        blue_offset: 1,
        green_offset: 2,
        intensity_offset: None,
        channel_size: 8,
        report_type: ReportType::Output,
        red_logical_max: 255,
        green_logical_max: 255,
        blue_logical_max: 255,
        intensity_logical_max: None,
    })
}

fn path(p: &str) -> Option<String> {
    Some(p.to_string())
}

#[test]
fn devices_are_found_by_path() {
    let devices = [lamps_at("/dev/hidraw0"), led_at("/dev/hidraw1"), lamps_at("/dev/hidraw1")];
    assert_eq!(find_device(&devices, &None).unwrap().hidraw_path(), "/dev/hidraw0");
    assert_eq!(find_device(&devices, &path("/dev/hidraw1")).unwrap().name(), "Mouse");
    assert!(find_device(&devices, &path("/dev/hidraw9")).is_none());
    assert!(find_device(&[], &None).is_none());
    assert!(find_device(&[], &path("/dev/hidraw0")).is_none());
}

#[test]
fn devices_are_listed() {
    assert_eq!(list_lines(&[]), vec!["No HID RGB devices found."]);
    assert_eq!(
        list_lines(&[lamps_at("/dev/hidraw0"), led_at("/dev/hidraw1")]),
        vec![
            "/dev/hidraw0  Keyboard  LampArray (range update)",
            "/dev/hidraw1  Mouse  LED RGB",
        ]
    );
}

#[test]
fn list_needs_no_device() {
    match plan(&[], &path("/dev/hidraw0"), &Command::List) {
        Step::Print { lines } => assert_eq!(lines, vec!["No HID RGB devices found."]),
        _ => panic!("not printed"),
    }
}

#[test]
fn other_commands_need_a_device() {
    match plan(&[], &None, &Command::Get) {
        Step::Complain { lines } => {
            assert_eq!(
                lines,
                vec![
                    "Error: No HID RGB devices found.",
                    "Check permissions on /dev/hidraw* — see README for udev setup.",
                ]
            );
        }
        _ => panic!("no complaint"),
    }
    match plan(&[led_at("/dev/hidraw1")], &path("/dev/hidraw0"), &Command::Get) {
        Step::Complain { lines } => {
            assert_eq!(lines, vec!["Error: No RGB device found at /dev/hidraw0"]);
        }
        _ => panic!("no complaint"),
    }
}

#[test]
fn get_shows_an_led_at_once() {
    match plan(&[led_at("/dev/hidraw1")], &None, &Command::Get) {
        Step::Print { lines } => assert_eq!(
            lines,
            vec![
                "Device: Mouse",
                "Protocol: LED Page RGB (Usage Page 0x08, Section 11.7)",
                "Path: /dev/hidraw1",
                "Report ID: 0x0a",
                "Channel size: 8 bits",
                "Has intensity: no",
            ]
        ),
        _ => panic!("not printed"),
    }
    assert!(matches!(
        plan(&[lamps_at("/dev/hidraw0")], &None, &Command::Get),
        Step::ShowLamps { .. }
    ));
    let a = LedRgbAttributes {
        name: "n".to_string(),
        path: "p".to_string(),
        protocol: "q",
        report_id: 255,
        channel_size: 16,
        has_intensity: true,
    };
    assert_eq!(led_rgb_lines(&a)[3..], ["Report ID: 0xff", "Channel size: 16 bits", "Has intensity: yes"]);
}

#[test]
fn get_shows_a_lamp_array() {
    let info = match lamps_at("/dev/hidraw0") {
        DeviceInfo::LampArray(info) => info,
        DeviceInfo::LedRgb(_) => unreachable!(),
    };
    let lengths = |x: &str, y: &str, z: &str| Lengths {
        x: x.to_string(),
        y: y.to_string(),
        z: z.to_string(),
    };
    let a = LampArrayAttributes {
        lamp_count: 1,
        width_um: 300_000,
        height_um: 100_000,
        depth_um: 20_000,
        kind: 1,
        kind_name: "Keyboard",
        min_update_interval_us: 33_000,
    };
    let lamp = LampAttributes {
        lamp_id: 0,
        position_x_um: 1000,
        position_y_um: 2000,
        position_z_um: 0,
        update_latency_us: 4,
        lamp_purposes: 1,
        red_level_count: 255,
        green_level_count: 254,
        blue_level_count: 253,
        intensity_level_count: 100,
        is_programmable: true,
        input_binding: 0,
    };
    assert_eq!(
        lamp_array_lines(
            &info,
            &a,
            &lengths("300.0", "100.0", "20.0"),
            &vec![lamp],
            &vec![lengths("1.0", "2.0", "0.0")],
        ),
        vec![
            "Device: Keyboard",
            "Protocol: HID LampArray (Usage Page 0x59)",
            "Path: /dev/hidraw0",
            "Lamps: 1",
            "Kind: Keyboard",
            "Bounding box: 300.0 x 100.0 x 20.0 mm",
            "Min update interval: 33000 us",
            "",
            "Lamp 0:",
            "  Position: (1.0, 2.0, 0.0) mm",
            "  RGB levels: 255/254/253",
            "  Intensity levels: 100",
            "  Programmable: yes",
        ]
    );
}

fn set(color: &[&str], intensity: u8) -> Command {
    Command::SetColor { color: texts(color), intensity }
}

#[test]
fn set_goes_to_either_kind_of_device() {
    match plan(&[lamps_at("/dev/hidraw0")], &None, &set(&["orange"], 128)) {
        Step::SetLamps { info, red, green, blue, intensity } => {
            assert_eq!(info.hidraw_path, "/dev/hidraw0");
            assert_eq!((red, green, blue, intensity), (255, 165, 0, 128));
        }
        _ => panic!("not set"),
    }
    match plan(&[led_at("/dev/hidraw1")], &None, &set(&["1", "2", "3"], 255)) {
        Step::SetLed { info, red, green, blue, intensity } => {
            assert_eq!(info.hidraw_path, "/dev/hidraw1");
            assert_eq!((red, green, blue, intensity), (1, 2, 3, 255));
        }
        _ => panic!("not set"),
    }
    match plan(&[led_at("/dev/hidraw1")], &None, &set(&["mauve"], 255)) {
        Step::Complain { lines } => assert_eq!(
            lines,
            vec![
                "Error: Invalid color. Use a preset (red, green, blue, white, cyan, yellow, \
                 orange, purple, pink, off), R G B values (0-255), or a 6-digit hex code."
            ]
        ),
        _ => panic!("no complaint"),
    }
}

fn set_lamp(lamps: &[(u16, &str)], intensity: u8) -> Command {
    Command::SetLamp {
        lamps: lamps.iter().map(|(id, s)| (*id, s.to_string())).collect(),
        intensity,
    }
}

#[test]
fn set_lamp_is_for_lamp_arrays() {
    let lamps = [lamps_at("/dev/hidraw0")];
    match plan(&lamps, &None, &set_lamp(&[(3, "RED"), (1, "00ff00")], 9)) {
        Step::SetEach { info, colors } => {
            assert_eq!(info.hidraw_path, "/dev/hidraw0");
            assert_eq!(
                colors,
                vec![
                    LampColor { lamp_id: 3, red: 255, green: 0, blue: 0, intensity: 9 },
                    LampColor { lamp_id: 1, red: 0, green: 255, blue: 0, intensity: 9 },
                ]
            );
        }
        _ => panic!("not set"),
    }
    match plan(&lamps, &None, &set_lamp(&[(3, "red"), (1, "mauve"), (2, "ecru")], 9)) {
        Step::Refuse { error } => assert_eq!(
            error.message(),
            "Invalid color 'mauve' for lamp 1. Use a preset (red, green, blue, white, cyan, \
             yellow, orange, purple, pink, off), or a 6-digit hex code."
        ),
        _ => panic!("not refused"),
    }
    match plan(&[led_at("/dev/hidraw1")], &None, &set_lamp(&[(0, "mauve")], 9)) {
        Step::Refuse { error } => assert!(matches!(error, Error::NoMultiUpdate)),
        _ => panic!("not refused"),
    }
    match plan(&[led_at("/dev/hidraw1")], &None, &set_lamp(&[], 9)) {
        Step::Complain { lines } => assert_eq!(
            lines,
            vec![
                "Error: set-lamp requires at least one ID:COLOR pair.",
                "Example: hid-rgb-ctl set-lamp 0:red 1:00ff00 2:blue",
            ]
        ),
        _ => panic!("no complaint"),
    }
}

#[test]
fn auto_is_for_lamp_arrays() {
    let on = Command::Auto { state: "on".to_string() };
    let off = Command::Auto { state: "off".to_string() };
    let lamps = [lamps_at("/dev/hidraw0")];
    assert!(matches!(plan(&lamps, &None, &on), Step::Switch { enabled: true, .. }));
    assert!(matches!(plan(&lamps, &None, &off), Step::Switch { enabled: false, .. }));
    match plan(&[led_at("/dev/hidraw1")], &None, &on) {
        Step::Refuse { error } => assert!(matches!(error, Error::NoAutonomousMode)),
        _ => panic!("not refused"),
    }
}

#[test]
fn what_was_done_is_said() {
    assert_eq!(set_message("Mouse", 255, 0, 7, 255), "Set Mouse to (255, 0, 7)");
    assert_eq!(set_message("Mouse", 1, 2, 3, 128), "Set Mouse to (1, 2, 3) intensity=128");
    assert_eq!(set_lamp_message(3, "Keyboard"), "Set 3 lamp(s) on Keyboard");
    assert_eq!(auto_message(true), "Autonomous mode: on (device controls)");
    assert_eq!(auto_message(false), "Autonomous mode: off (host controls)");
}

#[test]
fn errors_are_said() {
    let hint = "Run with sudo or set up a udev rule — see README.";
    let denied = Error::PermissionDenied { path: "/dev/hidraw4".to_string() };
    assert_eq!(
        error_lines(&denied, "/dev/hidraw0"),
        vec!["Error: Permission denied on /dev/hidraw4.", hint]
    );
    assert_eq!(plain_error_line(&denied), "Error: Permission denied on /dev/hidraw4");
    let io = |kind: IoKind| Error::Io(IoFailure { kind, message: "it broke".to_string() });
    assert_eq!(
        error_lines(&io(IoKind::PermissionDenied), "/dev/hidraw0"),
        vec!["Error: Permission denied on /dev/hidraw0.", hint]
    );
    assert_eq!(error_lines(&io(IoKind::Other), "/dev/hidraw0"), vec!["Error: it broke"]);
    assert_eq!(error_lines(&io(IoKind::NotFound), "/dev/hidraw0"), vec!["Error: it broke"]);
    assert_eq!(
        error_lines(&Error::NoAutonomousMode, "/dev/hidraw0"),
        vec![
            "Error: This device does not support autonomous mode. Only LampArray \
             (Usage Page 0x59) devices have this feature."
        ]
    );
}

#[test]
fn error_messages() {
    let cases = vec![
        (Error::PermissionDenied { path: "p".to_string() }, "Permission denied on p"),
        (Error::DeviceNotFound { path: "p".to_string() }, "Device not found: p"),
        (Error::MissingReport { report_name: "control".to_string() }, "Device has no 'control' report"),
        (
            Error::NoMultiUpdate,
            "Per-lamp color control requires a LampArray device (Usage Page 0x59) with a \
             LampMultiUpdateReport.",
        ),
        (
            Error::UnsupportedReportType,
            "The RGB channels of this device are in an Input report, which cannot be sent.",
        ),
        (
            Error::TruncatedReport { report_name: "LampArrayAttributes", expected: 23, got: 5 },
            "Truncated LampArrayAttributes report: expected 23 bytes, got 5",
        ),
        (
            Error::LampIdMismatch { expected: 1, got: 2 },
            "Device answered for lamp 2 instead of lamp 1",
        ),
        (
            Error::LampIdOutOfRange { lamp_id: 9, lamp_count: 3 },
            "Lamp ID 9 is out of range: the device has 3 lamp(s)",
        ),
        (Error::DuplicateLampId { lamp_id: 9 }, "Lamp ID 9 occurs more than once"),
        (Error::InvalidArgument("a".to_string()), "a"),
        (Error::Arg("b".to_string()), "b"),
    ];
    for (e, message) in cases {
        assert_eq!(e.message(), message);
    }
}
