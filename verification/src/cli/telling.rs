//! What the subcommands decide and what they say, line by line.

use vstd::prelude::*;

use super::args::CommandView;
use super::command::{LengthsView, StepView};
use super::{color, command};
use crate::descriptor::{DeviceInfoView, LampArrayInfoView, LedRgbInfoView};
use crate::device::lamp::{LampArrayAttributesView, LampAttributes};
use crate::device::led_rgb::LedRgbAttributesView;
use crate::device::multi_update::LampColor;
use crate::error::{ErrorView, IoKind};
use crate::text;

verus! {

proof fn lamps_have_their_lines(
    lamps: Seq<LampAttributes>,
    positions: Seq<LengthsView>,
    n: nat,
    i: int,
)
    requires
        0 <= i < n,
    ensures
        command::lamps_text(lamps, positions, n).len() == 6 * n,
        command::lamps_text(lamps, positions, n).subrange(6 * i, 6 * i + 6) == command::lamp_text(
            lamps[i],
            positions[i],
        ),
    decreases n,
{
    let before = command::lamps_text(lamps, positions, (n - 1) as nat);
    let all = command::lamps_text(lamps, positions, n);
    if n > 1 {
        lamps_have_their_lines(lamps, positions, (n - 1) as nat, if i < n - 1 {
            i
        } else {
            0
        });
    } else {
        assert(before == Seq::<Seq<char>>::empty());
    }
    if i < n - 1 {
        assert(all.subrange(6 * i, 6 * i + 6) =~= before.subrange(6 * i, 6 * i + 6));
    } else {
        assert(all.subrange(6 * i, 6 * i + 6) =~= command::lamp_text(lamps[i], positions[i]));
    }
}

/// `get` shows a LampArray device in seven lines and each of its lamps in six, one lamp after the
/// other: an empty line, and then the ID, the position, the levels and the programmability of that
/// very lamp.
pub proof fn get_shows_every_lamp(
    info: LampArrayInfoView,
    a: LampArrayAttributesView,
    bounds: LengthsView,
    lamps: Seq<LampAttributes>,
    positions: Seq<LengthsView>,
    i: int,
)
    requires
        positions.len() == lamps.len(),
        0 <= i < lamps.len(),
    ensures
        ({
            let lines = command::lamp_array_head(info, a, bounds) + command::lamps_text(
                lamps,
                positions,
                lamps.len(),
            );
            let lamp = lamps[i];
            let p = positions[i];
            &&& lines.len() == 7 + 6 * lamps.len()
            &&& lines[7 + 6 * i] == ""@
            &&& lines[7 + 6 * i + 1] == "Lamp "@ + text::decimal(lamp.lamp_id as nat) + ":"@
            &&& lines[7 + 6 * i + 2] == "  Position: ("@ + p.x + ", "@ + p.y + ", "@ + p.z
                + ") mm"@
            &&& lines[7 + 6 * i + 3] == "  RGB levels: "@ + text::decimal(
                lamp.red_level_count as nat,
            ) + "/"@ + text::decimal(lamp.green_level_count as nat) + "/"@ + text::decimal(
                lamp.blue_level_count as nat,
            )
            &&& lines[7 + 6 * i + 4] == "  Intensity levels: "@ + text::decimal(
                lamp.intensity_level_count as nat,
            )
            &&& lines[7 + 6 * i + 5] == "  Programmable: "@ + if lamp.is_programmable {
                "yes"@
            } else {
                "no"@
            }
        }),
{
    let head = command::lamp_array_head(info, a, bounds);
    let rest = command::lamps_text(lamps, positions, lamps.len());
    let block = command::lamp_text(lamps[i], positions[i]);
    lamps_have_their_lines(lamps, positions, lamps.len(), i);
    assert(head.len() == 7);
    assert forall|k: int| 0 <= k < 6 implies #[trigger] rest[6 * i + k] == block[k] by {
        assert(rest.subrange(6 * i, 6 * i + 6)[k] == rest[6 * i + k]);
    }
    assert((head + rest)[7 + 6 * i] == rest[6 * i + 0]);
    assert((head + rest)[7 + 6 * i + 1] == rest[6 * i + 1]);
    assert((head + rest)[7 + 6 * i + 2] == rest[6 * i + 2]);
    assert((head + rest)[7 + 6 * i + 3] == rest[6 * i + 3]);
    assert((head + rest)[7 + 6 * i + 4] == rest[6 * i + 4]);
    assert((head + rest)[7 + 6 * i + 5] == rest[6 * i + 5]);
}

/// What `get` says of a LampArray device comes first: its name, protocol, path, number of lamps,
/// kind, size and speed, whatever lamps it has. A device without lamps has no further lines.
pub proof fn get_shows_the_device_first(
    info: LampArrayInfoView,
    a: LampArrayAttributesView,
    bounds: LengthsView,
    lamps: Seq<LampAttributes>,
    positions: Seq<LengthsView>,
)
    ensures
        ({
            let lines = command::lamp_array_head(info, a, bounds) + command::lamps_text(
                lamps,
                positions,
                lamps.len(),
            );
            &&& lamps.len() == 0 ==> lines.len() == 7
            &&& lines[0] == "Device: "@ + info.name
            &&& lines[1] == "Protocol: HID LampArray (Usage Page 0x59)"@
            &&& lines[2] == "Path: "@ + info.hidraw_path
            &&& lines[3] == "Lamps: "@ + text::decimal(a.lamp_count as nat)
            &&& lines[4] == "Kind: "@ + a.kind_name
            &&& lines[5] == "Bounding box: "@ + bounds.x + " x "@ + bounds.y + " x "@ + bounds.z
                + " mm"@
            &&& lines[6] == "Min update interval: "@ + text::decimal(
                a.min_update_interval_us as nat,
            ) + " us"@
        }),
{
}

/// `get` shows an LED in six lines: its name, protocol, path, report ID, channel size, and whether
/// it has an intensity channel.
pub proof fn get_shows_the_led(
    devices: Seq<DeviceInfoView>,
    path: Option<Seq<char>>,
    info: LedRgbInfoView,
)
    requires
        command::chosen(devices, path) == Some(DeviceInfoView::LedRgb(info)),
    ensures
        command::planned(devices, path, CommandView::Get) matches StepView::Print { lines } && {
            &&& lines.len() == 6
            &&& lines[0] == "Device: "@ + info.name
            &&& lines[1] == "Protocol: "@ + "LED Page RGB (Usage Page 0x08, Section 11.7)"@
            &&& lines[2] == "Path: "@ + info.hidraw_path
            &&& lines[3] == "Report ID: 0x"@ + text::hex2(info.report_id)
            &&& lines[4] == "Channel size: "@ + text::decimal(info.channel_size as nat) + " bits"@
            &&& lines[5] == "Has intensity: "@ + if info.intensity_offset is Some {
                "yes"@
            } else {
                "no"@
            }
        },
{
}

/// The six lines for an LED's attributes.
pub proof fn led_attributes_have_their_lines(a: LedRgbAttributesView)
    ensures
        ({
            let lines = command::led_rgb_text(a);
            &&& lines.len() == 6
            &&& lines[0] == "Device: "@ + a.name
            &&& lines[1] == "Protocol: "@ + a.protocol
            &&& lines[2] == "Path: "@ + a.path
            &&& lines[3] == "Report ID: 0x"@ + text::hex2(a.report_id)
            &&& lines[4] == "Channel size: "@ + text::decimal(a.channel_size as nat) + " bits"@
            &&& lines[5] == "Has intensity: "@ + if a.has_intensity {
                "yes"@
            } else {
                "no"@
            }
        }),
{
}

/// `list` has a line for every device, in the order found: its path, its name, and what it is. For a
/// LampArray device that says which update reports it has. The path option makes no difference.
pub proof fn list_shows_every_device(
    devices: Seq<DeviceInfoView>,
    path: Option<Seq<char>>,
    i: int,
)
    ensures
        command::planned(devices, path, CommandView::List) matches StepView::Print { lines } && {
            &&& devices.len() == 0 ==> lines == seq!["No HID RGB devices found."@]
            &&& devices.len() > 0 ==> lines.len() == devices.len()
            &&& 0 <= i < devices.len() ==> match devices[i] {
                DeviceInfoView::LampArray(info) => {
                    let begin = info.hidraw_path + "  "@ + info.name + "  "@;
                    let range = info.reports.range_update is Some;
                    let multi = info.reports.multi_update is Some;
                    &&& range && multi ==> lines[i] == begin + "LampArray (range+multi update)"@
                    &&& range && !multi ==> lines[i] == begin + "LampArray (range update)"@
                    &&& !range && multi ==> lines[i] == begin + "LampArray (multi update)"@
                    &&& !range && !multi ==> lines[i] == begin + "LampArray"@
                },
                DeviceInfoView::LedRgb(info) => lines[i] == info.hidraw_path + "  "@ + info.name
                    + "  "@ + "LED RGB"@,
            }
        },
{
}

/// Without a path, commands act on the first device found; without any device, and with a path that
/// no device has, they say so and do nothing.
pub proof fn commands_need_a_device(
    devices: Seq<DeviceInfoView>,
    path: Option<Seq<char>>,
    asked: CommandView,
)
    ensures
        devices.len() > 0 ==> command::chosen(devices, None) == Some(devices[0]),
        devices.len() == 0 ==> command::chosen(devices, path) is None,
        !(asked is List) && command::chosen(devices, path) is None ==> command::planned(
            devices,
            path,
            asked,
        ) == (StepView::Complain {
            lines: match path {
                Some(p) => seq!["Error: No RGB device found at "@ + p],
                None => seq![
                    "Error: No HID RGB devices found."@,
                    "Check permissions on /dev/hidraw* — see README for udev setup."@,
                ],
            },
        }),
{
}

/// `get` and `auto` on a LampArray device read and switch that very device; an LED has no autonomous
/// mode.
pub proof fn get_and_auto_act_on_the_device(
    devices: Seq<DeviceInfoView>,
    path: Option<Seq<char>>,
    device: DeviceInfoView,
    state: Seq<char>,
)
    requires
        command::chosen(devices, path) == Some(device),
    ensures
        ({
            let get = command::planned(devices, path, CommandView::Get);
            let auto = command::planned(devices, path, CommandView::Auto { state });
            match device {
                DeviceInfoView::LampArray(info) => {
                    &&& get == (StepView::ShowLamps { info })
                    &&& state == "on"@ ==> auto == (StepView::Switch { info, enabled: true })
                    &&& state == "off"@ ==> auto == (StepView::Switch { info, enabled: false })
                    &&& state != "on"@ ==> auto == (StepView::Switch { info, enabled: false })
                },
                DeviceInfoView::LedRgb(_) => auto == (StepView::Refuse {
                    error: ErrorView::NoAutonomousMode,
                }),
            }
        }),
{
    reveal_strlit("on");
    reveal_strlit("off");
    assert("on"@.len() == 2 && "off"@.len() == 3);
}

/// `set` sets the device that was chosen to the color that its arguments give, with the intensity
/// given: a LampArray device all its lamps, an LED its channels. Arguments that give no color are
/// complained of.
pub proof fn set_acts_on_the_device(
    devices: Seq<DeviceInfoView>,
    path: Option<Seq<char>>,
    device: DeviceInfoView,
    texts: Seq<Seq<char>>,
    intensity: u8,
)
    requires
        command::chosen(devices, path) == Some(device),
    ensures
        ({
            let named = if texts.len() == 1 {
                color::preset_named(color::lowercase(texts[0]))
            } else {
                None
            };
            let set = command::planned(
                devices,
                path,
                CommandView::SetColor { color: texts, intensity },
            );
            match (color::color_of(texts, named), device) {
                (Some((red, green, blue)), DeviceInfoView::LampArray(info)) => set == (
                StepView::SetLamps { info, red, green, blue, intensity }),
                (Some((red, green, blue)), DeviceInfoView::LedRgb(info)) => set == (
                StepView::SetLed { info, red, green, blue, intensity }),
                (None, _) => set == (StepView::Complain {
                    lines: seq![
                        "Error: Invalid color. Use a preset ("@ + color::all_names()
                            + "), R G B values (0-255), or a 6-digit hex code."@,
                    ],
                }),
            }
        }),
{
}

proof fn first_bad_color(lamps: Seq<(u16, Seq<char>)>, intensity: u8, i: int)
    requires
        0 <= i < lamps.len(),
        command::single_color(lamps[i].1) is None,
        forall|k: int|
            0 <= k < i ==> command::single_color((#[trigger] lamps[k]).1) is Some,
    ensures
        command::lamp_colors(lamps, intensity) == Err::<Seq<LampColor>, ErrorView>(
            command::bad_lamp_color(lamps[i].0, lamps[i].1),
        ),
    decreases lamps.len(),
{
    let rest = lamps.drop_last();
    if i < lamps.len() - 1 {
        assert(forall|k: int| 0 <= k < i ==> rest[k] == lamps[k]);
        first_bad_color(rest, intensity, i);
    } else {
        assert(forall|k: int| 0 <= k < i ==> rest[k] == lamps[k]);
        good_colors(rest, intensity);
    }
}

proof fn good_colors(lamps: Seq<(u16, Seq<char>)>, intensity: u8)
    requires
        forall|k: int|
            0 <= k < lamps.len() ==> command::single_color((#[trigger] lamps[k]).1) is Some,
    ensures
        command::lamp_colors(lamps, intensity) is Ok,
    decreases lamps.len(),
{
    if lamps.len() > 0 {
        let rest = lamps.drop_last();
        assert(forall|k: int| 0 <= k < rest.len() ==> rest[k] == lamps[k]);
        assert(command::single_color(lamps[lamps.len() - 1].1) is Some);
        good_colors(rest, intensity);
    }
}

/// `set-lamp` sets the lamps of the device that was chosen, each to the color that its text gives
/// and all with the intensity given, in the order given.
pub proof fn set_lamp_acts_on_the_device(
    devices: Seq<DeviceInfoView>,
    path: Option<Seq<char>>,
    info: LampArrayInfoView,
    lamps: Seq<(u16, Seq<char>)>,
    intensity: u8,
)
    requires
        command::chosen(devices, path) == Some(DeviceInfoView::LampArray(info)),
        lamps.len() > 0,
        forall|k: int|
            0 <= k < lamps.len() ==> command::single_color((#[trigger] lamps[k]).1) is Some,
    ensures
        command::planned(
            devices,
            path,
            CommandView::SetLamp { lamps, intensity },
        ) matches StepView::SetEach { info: on, colors } && {
            &&& on == info
            &&& colors.len() == lamps.len()
            &&& forall|i: int|
                0 <= i < lamps.len() ==> {
                    &&& (#[trigger] colors[i]).lamp_id == lamps[i].0
                    &&& colors[i].intensity == intensity
                    &&& command::single_color(lamps[i].1) == Some(
                        (colors[i].red, colors[i].green, colors[i].blue),
                    )
                }
        },
{
    good_colors(lamps, intensity);
    command::every_lamp_gets_its_color(lamps, intensity);
}

/// The text of a lamp's color is read as the one argument of `set` would be.
pub proof fn lamp_colors_are_read_as_by_set(s: Seq<char>)
    ensures
        command::single_color(s) == color::color_of(
            seq![s],
            color::preset_named(color::lowercase(s)),
        ),
{
}

/// `set-lamp` does nothing where a text gives no color, and names the first such text and its lamp;
/// nor without a lamp; nor on an LED.
pub proof fn set_lamp_is_refused(
    devices: Seq<DeviceInfoView>,
    path: Option<Seq<char>>,
    device: DeviceInfoView,
    lamps: Seq<(u16, Seq<char>)>,
    intensity: u8,
    i: int,
)
    requires
        command::chosen(devices, path) == Some(device),
    ensures
        ({
            let step = command::planned(devices, path, CommandView::SetLamp { lamps, intensity });
            &&& lamps.len() == 0 ==> step == (StepView::Complain {
                lines: seq![
                    "Error: set-lamp requires at least one ID:COLOR pair."@,
                    "Example: hid-rgb-ctl set-lamp 0:red 1:00ff00 2:blue"@,
                ],
            })
            &&& lamps.len() > 0 && device is LedRgb ==> step == (StepView::Refuse {
                error: ErrorView::NoMultiUpdate,
            })
            &&& device is LampArray && 0 <= i < lamps.len() && command::single_color(lamps[i].1)
                is None && (forall|k: int|
                0 <= k < i ==> command::single_color((#[trigger] lamps[k]).1) is Some) ==> step
                == (StepView::Refuse {
                error: ErrorView::InvalidArgument(
                    "Invalid color '"@ + lamps[i].1 + "' for lamp "@ + text::decimal(
                        lamps[i].0 as nat,
                    ) + ". Use a preset ("@ + color::all_names() + "), or a 6-digit hex code."@,
                ),
            })
        }),
{
    if 0 <= i < lamps.len() && command::single_color(lamps[i].1) is None && (forall|k: int|
        0 <= k < i ==> command::single_color((#[trigger] lamps[k]).1) is Some) {
        first_bad_color(lamps, intensity, i);
    }
}

/// What is said when a command is done: `set` names the device and the color, and the intensity
/// unless it is the full one; `set-lamp` how many lamps of which device; `auto` who controls the
/// lamps now.
pub proof fn success_is_told(name: Seq<char>, r: u8, g: u8, b: u8, intensity: u8, count: nat)
    ensures
        ({
            let color = "Set "@ + name + " to ("@ + text::decimal(r as nat) + ", "@ + text::decimal(
                g as nat,
            ) + ", "@ + text::decimal(b as nat) + ")"@;
            &&& command::set_text(name, r, g, b, 255) == color
            &&& intensity < 255 ==> command::set_text(name, r, g, b, intensity) == color
                + " intensity="@ + text::decimal(intensity as nat)
        }),
        command::set_lamp_text(count, name) == "Set "@ + text::decimal(count) + " lamp(s) on "@
            + name,
        command::auto_text(true) == "Autonomous mode: "@ + "on (device controls)"@,
        command::auto_text(false) == "Autonomous mode: "@ + "off (host controls)"@,
{
}

/// What is said when a command fails: where permission is denied, on which path and what to do about
/// it, and otherwise what the error says.
pub proof fn failure_is_told(e: ErrorView, device_path: Seq<char>)
    ensures
        ({
            let lines = command::error_text(e, device_path);
            let hint = "Run with sudo or set up a udev rule — see README."@;
            match e {
                ErrorView::PermissionDenied { path } => lines == seq![
                    "Error: Permission denied on "@ + path + "."@,
                    hint,
                ],
                ErrorView::Io(failure) => if failure.kind == IoKind::PermissionDenied {
                    lines == seq!["Error: Permission denied on "@ + device_path + "."@, hint]
                } else {
                    lines == seq!["Error: "@ + failure.message]
                },
                _ => lines == seq!["Error: "@ + e.message()],
            }
        }),
{
}

/// What the errors say, each with what it is about.
pub proof fn errors_say_what_they_are_about(
    text: Seq<char>,
    n: nat,
    m: nat,
    one: u16,
    other: u16,
)
    ensures
        (ErrorView::PermissionDenied { path: text }).message() == "Permission denied on "@ + text,
        (ErrorView::DeviceNotFound { path: text }).message() == "Device not found: "@ + text,
        (ErrorView::MissingReport { report_name: text }).message() == "Device has no '"@ + text
            + "' report"@,
        (ErrorView::TruncatedReport { report_name: text, expected: n, got: m }).message()
            == "Truncated "@ + text + " report: expected "@ + text::decimal(n) + " bytes, got "@
            + text::decimal(m),
        (ErrorView::LampIdMismatch { expected: one, got: other }).message()
            == "Device answered for lamp "@ + text::decimal(other as nat) + " instead of lamp "@
            + text::decimal(one as nat),
        (ErrorView::LampIdOutOfRange { lamp_id: one, lamp_count: other }).message() == "Lamp ID "@
            + text::decimal(one as nat) + " is out of range: the device has "@ + text::decimal(
            other as nat,
        ) + " lamp(s)"@,
        (ErrorView::DuplicateLampId { lamp_id: one }).message() == "Lamp ID "@ + text::decimal(
            one as nat,
        ) + " occurs more than once"@,
        ErrorView::InvalidArgument(text).message() == text,
        ErrorView::Arg(text).message() == text,
{
}

} // verus!
