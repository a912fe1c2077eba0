//! What the subcommands do: which device they act on, what they have it do, and what they say.
//!
//! [`plan`] decides from the command line and the devices found what is to be done. The texts are
//! composed here line by line; where they go is up to the caller.

use vstd::prelude::*;
use vstd::string::StringExecFns;

use super::args::{Command, CommandView};
use super::{args, color, lexer};
use crate::descriptor::{
    discovery, DeviceInfo, DeviceInfoView, LampArrayInfo, LampArrayInfoView, LedRgbInfo,
    LedRgbInfoView,
};
use crate::device::lamp::{LampArrayAttributes, LampArrayAttributesView, LampAttributes};
use crate::device::lamp_array;
use crate::device::lamp_array::LampArrayDevice;
use crate::device::led_rgb::{LedRgbAttributes, LedRgbAttributesView, LedRgbDevice};
use crate::device::multi_update::LampColor;
use crate::error::{Error, ErrorView, IoKind};
use crate::text;

verus! {

/// The first device with this path.
pub open spec fn device_at(devices: Seq<DeviceInfoView>, path: Seq<char>) -> Option<DeviceInfoView>
    decreases devices.len(),
{
    if devices.len() == 0 {
        None
    } else if devices[0].hidraw_path() == path {
        Some(devices[0])
    } else {
        device_at(devices.drop_first(), path)
    }
}

/// The device that a command acts on: the one at the path, or the first one.
pub open spec fn chosen(devices: Seq<DeviceInfoView>, path: Option<Seq<char>>) -> Option<
    DeviceInfoView,
> {
    match path {
        None => if devices.len() == 0 {
            None
        } else {
            Some(devices[0])
        },
        Some(p) => device_at(devices, p),
    }
}

/// Finds the device that a command acts on.
pub fn find_device<'a>(devices: &'a [DeviceInfo], path: &Option<String>) -> (found: Option<
    &'a DeviceInfo,
>)
    ensures
        match found {
            Some(d) => chosen(discovery::devices_view(devices@), lexer::text_view(*path)) == Some(
                d@,
            ),
            None => chosen(
                discovery::devices_view(devices@),
                lexer::text_view(*path),
            ) is None,
        },
{
    match path {
        None => if devices.len() == 0 {
            None
        } else {
            Some(&devices[0])
        },
        Some(p) => {
            let ghost all = discovery::devices_view(devices@);
            assert(all.skip(0) =~= all);
            let mut i: usize = 0;
            while i < devices.len()
                invariant
                    i <= devices@.len(),
                    all == discovery::devices_view(devices@),
                    *path == Some(*p),
                    device_at(all, p@) == device_at(all.skip(i as int), p@),
                decreases devices@.len() - i,
            {
                assert(all.skip(i as int)[0] == devices@[i as int]@);
                assert(all.skip(i as int).drop_first() =~= all.skip(i + 1));
                if text::same(devices[i].hidraw_path(), p.as_str()) {
                    return Some(&devices[i]);
                }
                i = i + 1;
            }
            None
        },
    }
}

/// The line that `list` gives a device.
pub open spec fn list_line(device: DeviceInfoView) -> Seq<char> {
    device.hidraw_path() + "  "@ + device.name() + "  "@ + match device {
        DeviceInfoView::LampArray(info) => lamp_array::summary_of(
            info.reports.range_update is Some,
            info.reports.multi_update is Some,
        ),
        DeviceInfoView::LedRgb(_) => "LED RGB"@,
    }
}

/// What `list` says: one line for each device.
pub open spec fn list_text(devices: Seq<DeviceInfoView>) -> Seq<Seq<char>> {
    if devices.len() == 0 {
        seq!["No HID RGB devices found."@]
    } else {
        devices.map_values(|d: DeviceInfoView| list_line(d))
    }
}

/// The lines of `list`.
pub fn list_lines(devices: &[DeviceInfo]) -> (lines: Vec<String>)
    ensures
        text::texts_view(lines@) == list_text(discovery::devices_view(devices@)),
{
    let mut lines: Vec<String> = Vec::new();
    if devices.len() == 0 {
        lines.push("No HID RGB devices found.".to_string());
        assert(text::texts_view(lines@) =~= seq!["No HID RGB devices found."@]);
        return lines;
    }
    let mut i: usize = 0;
    while i < devices.len()
        invariant
            i <= devices@.len(),
            lines@.len() == i,
            forall|k: int| 0 <= k < i ==> (#[trigger] lines@[k])@ == list_line(devices@[k]@),
        decreases devices@.len() - i,
    {
        let summary: &str = match &devices[i] {
            DeviceInfo::LampArray(info) => LampArrayDevice::new(info).summary(),
            DeviceInfo::LedRgb(info) => LedRgbDevice::new(info).summary(),
        };
        lines.push(
            devices[i].hidraw_path().to_string().concat("  ").concat(devices[i].name()).concat(
                "  ",
            ).concat(summary),
        );
        i = i + 1;
    }
    assert(text::texts_view(lines@) =~= list_text(discovery::devices_view(devices@)));
    lines
}

/// "yes" or "no".
pub open spec fn yes_no(b: bool) -> Seq<char> {
    if b {
        "yes"@
    } else {
        "no"@
    }
}

/// Says "yes" or "no".
fn yes_no_text(b: bool) -> (s: &'static str)
    ensures
        s@ == yes_no(b),
{
    if b {
        "yes"
    } else {
        "no"
    }
}

/// What `get` says of an LED Page device.
pub open spec fn led_rgb_text(a: LedRgbAttributesView) -> Seq<Seq<char>> {
    seq![
        "Device: "@ + a.name,
        "Protocol: "@ + a.protocol,
        "Path: "@ + a.path,
        "Report ID: 0x"@ + text::hex2(a.report_id),
        "Channel size: "@ + text::decimal(a.channel_size as nat) + " bits"@,
        "Has intensity: "@ + yes_no(a.has_intensity),
    ]
}

/// The lines of `get` for an LED Page device.
pub fn led_rgb_lines(a: &LedRgbAttributes) -> (lines: Vec<String>)
    ensures
        text::texts_view(lines@) == led_rgb_text(a@),
{
    let mut lines: Vec<String> = Vec::new();
    lines.push("Device: ".to_string().concat(a.name.as_str()));
    lines.push("Protocol: ".to_string().concat(a.protocol));
    lines.push("Path: ".to_string().concat(a.path.as_str()));
    lines.push("Report ID: 0x".to_string().concat(text::hex2_text(a.report_id).as_str()));
    lines.push(
        "Channel size: ".to_string().concat(
            text::decimal_text(a.channel_size as u64).as_str(),
        ).concat(" bits"),
    );
    lines.push("Has intensity: ".to_string().concat(yes_no_text(a.has_intensity)));
    assert(text::texts_view(lines@) =~= led_rgb_text(a@));
    lines
}

/// Three lengths in millimeters, as texts.
#[derive(Debug, Clone)]
pub struct Lengths {
    pub x: String,
    pub y: String,
    pub z: String,
}

/// `Lengths` over mathematical values.
pub struct LengthsView {
    pub x: Seq<char>,
    pub y: Seq<char>,
    pub z: Seq<char>,
}

impl View for Lengths {
    type V = LengthsView;

    open spec fn view(&self) -> LengthsView {
        LengthsView { x: self.x@, y: self.y@, z: self.z@ }
    }
}

/// What `get` says of a LampArray device as a whole.
pub open spec fn lamp_array_head(
    info: LampArrayInfoView,
    a: LampArrayAttributesView,
    bounds: LengthsView,
) -> Seq<Seq<char>> {
    seq![
        "Device: "@ + info.name,
        "Protocol: HID LampArray (Usage Page 0x59)"@,
        "Path: "@ + info.hidraw_path,
        "Lamps: "@ + text::decimal(a.lamp_count as nat),
        "Kind: "@ + a.kind_name,
        "Bounding box: "@ + bounds.x + " x "@ + bounds.y + " x "@ + bounds.z + " mm"@,
        "Min update interval: "@ + text::decimal(a.min_update_interval_us as nat) + " us"@,
    ]
}

/// What `get` says of one lamp, with an empty line before it.
pub open spec fn lamp_text(lamp: LampAttributes, position: LengthsView) -> Seq<Seq<char>> {
    seq![
        ""@,
        "Lamp "@ + text::decimal(lamp.lamp_id as nat) + ":"@,
        "  Position: ("@ + position.x + ", "@ + position.y + ", "@ + position.z + ") mm"@,
        "  RGB levels: "@ + text::decimal(lamp.red_level_count as nat) + "/"@ + text::decimal(
            lamp.green_level_count as nat,
        ) + "/"@ + text::decimal(lamp.blue_level_count as nat),
        "  Intensity levels: "@ + text::decimal(lamp.intensity_level_count as nat),
        "  Programmable: "@ + yes_no(lamp.is_programmable),
    ]
}

/// What `get` says of the first `n` lamps.
pub open spec fn lamps_text(
    lamps: Seq<LampAttributes>,
    positions: Seq<LengthsView>,
    n: nat,
) -> Seq<Seq<char>>
    decreases n,
{
    if n == 0 {
        Seq::empty()
    } else {
        lamps_text(lamps, positions, (n - 1) as nat) + lamp_text(lamps[n - 1], positions[n - 1])
    }
}

/// Lengths over mathematical values.
pub open spec fn lengths_view(lengths: Seq<Lengths>) -> Seq<LengthsView> {
    lengths.map_values(|l: Lengths| l@)
}

/// The lines of `get` for one lamp.
pub fn lamp_lines(lamp: &LampAttributes, position: &Lengths) -> (lines: Vec<String>)
    ensures
        text::texts_view(lines@) == lamp_text(*lamp, position@),
{
    let mut lines: Vec<String> = Vec::new();
    lines.push("".to_string());
    lines.push(
        "Lamp ".to_string().concat(text::decimal_text(lamp.lamp_id as u64).as_str()).concat(":"),
    );
    lines.push(
        "  Position: (".to_string().concat(position.x.as_str()).concat(", ").concat(
            position.y.as_str(),
        ).concat(", ").concat(position.z.as_str()).concat(") mm"),
    );
    lines.push(
        "  RGB levels: ".to_string().concat(
            text::decimal_text(lamp.red_level_count as u64).as_str(),
        ).concat("/").concat(text::decimal_text(lamp.green_level_count as u64).as_str()).concat(
            "/",
        ).concat(text::decimal_text(lamp.blue_level_count as u64).as_str()),
    );
    lines.push(
        "  Intensity levels: ".to_string().concat(
            text::decimal_text(lamp.intensity_level_count as u64).as_str(),
        ),
    );
    lines.push("  Programmable: ".to_string().concat(yes_no_text(lamp.is_programmable)));
    assert(text::texts_view(lines@) =~= lamp_text(*lamp, position@));
    lines
}

/// The lines of `get` for a LampArray device: the device, and then every lamp. The lengths, which
/// the device gives in micrometers, come as texts.
pub fn lamp_array_lines(
    info: &LampArrayInfo,
    a: &LampArrayAttributes,
    bounds: &Lengths,
    lamps: &Vec<LampAttributes>,
    positions: &Vec<Lengths>,
) -> (lines: Vec<String>)
    requires
        positions@.len() == lamps@.len(),
    ensures
        text::texts_view(lines@) == lamp_array_head(info@, a@, bounds@) + lamps_text(
            lamps@,
            lengths_view(positions@),
            lamps@.len(),
        ),
{
    let mut lines: Vec<String> = Vec::new();
    lines.push("Device: ".to_string().concat(info.name.as_str()));
    lines.push("Protocol: HID LampArray (Usage Page 0x59)".to_string());
    lines.push("Path: ".to_string().concat(info.hidraw_path.as_str()));
    lines.push("Lamps: ".to_string().concat(text::decimal_text(a.lamp_count as u64).as_str()));
    lines.push("Kind: ".to_string().concat(a.kind_name));
    lines.push(
        "Bounding box: ".to_string().concat(bounds.x.as_str()).concat(" x ").concat(
            bounds.y.as_str(),
        ).concat(" x ").concat(bounds.z.as_str()).concat(" mm"),
    );
    lines.push(
        "Min update interval: ".to_string().concat(
            text::decimal_text(a.min_update_interval_us as u64).as_str(),
        ).concat(" us"),
    );
    let ghost head = lamp_array_head(info@, a@, bounds@);
    let ghost places = lengths_view(positions@);
    assert(text::texts_view(lines@) =~= head + lamps_text(lamps@, places, 0));
    let mut i: usize = 0;
    while i < lamps.len()
        invariant
            i <= lamps@.len(),
            positions@.len() == lamps@.len(),
            places == lengths_view(positions@),
            text::texts_view(lines@) == head + lamps_text(lamps@, places, i as nat),
        decreases lamps@.len() - i,
    {
        let mut more: Vec<String> = lamp_lines(&lamps[i], &positions[i]);
        let ghost before = lines@;
        let ghost added = more@;
        lines.append(&mut more);
        assert(text::texts_view(lines@) =~= text::texts_view(before) + text::texts_view(added));
        assert(head + lamps_text(lamps@, places, i as nat) + lamp_text(
            lamps@[i as int],
            places[i as int],
        ) =~= head + lamps_text(lamps@, places, (i + 1) as nat));
        i = i + 1;
    }
    lines
}

/// What `set` says when it is done.
pub open spec fn set_text(name: Seq<char>, r: u8, g: u8, b: u8, intensity: u8) -> Seq<char> {
    let done = "Set "@ + name + " to ("@ + text::decimal(r as nat) + ", "@ + text::decimal(g as nat)
        + ", "@ + text::decimal(b as nat) + ")"@;
    if intensity == 255 {
        done
    } else {
        done + " intensity="@ + text::decimal(intensity as nat)
    }
}

/// The line of `set` when it is done: the color, and the intensity where it is not the full one.
pub fn set_message(name: &str, r: u8, g: u8, b: u8, intensity: u8) -> (line: String)
    ensures
        line@ == set_text(name@, r, g, b, intensity),
{
    let done: String = "Set ".to_string().concat(name).concat(" to (").concat(
        text::decimal_text(r as u64).as_str(),
    ).concat(", ").concat(text::decimal_text(g as u64).as_str()).concat(", ").concat(
        text::decimal_text(b as u64).as_str(),
    ).concat(")");
    if intensity != 255 {
        done.concat(" intensity=").concat(text::decimal_text(intensity as u64).as_str())
    } else {
        done
    }
}

/// What `set-lamp` says when it is done.
pub open spec fn set_lamp_text(count: nat, name: Seq<char>) -> Seq<char> {
    "Set "@ + text::decimal(count) + " lamp(s) on "@ + name
}

/// The line of `set-lamp` when it is done.
pub fn set_lamp_message(count: usize, name: &str) -> (line: String)
    ensures
        line@ == set_lamp_text(count as nat, name@),
{
    "Set ".to_string().concat(text::decimal_text(count as u64).as_str()).concat(
        " lamp(s) on ",
    ).concat(name)
}

/// What `auto` says when it is done.
pub open spec fn auto_text(enabled: bool) -> Seq<char> {
    "Autonomous mode: "@ + if enabled {
        "on (device controls)"@
    } else {
        "off (host controls)"@
    }
}

/// The line of `auto` when it is done.
pub fn auto_message(enabled: bool) -> (line: String)
    ensures
        line@ == auto_text(enabled),
{
    let state: &str = if enabled {
        "on (device controls)"
    } else {
        "off (host controls)"
    };
    "Autonomous mode: ".to_string().concat(state)
}

/// The color that a single text gives.
pub open spec fn single_color(s: Seq<char>) -> Option<(u8, u8, u8)> {
    color::color_of(seq![s], color::preset_named(color::lowercase(s)))
}

/// The error for a text that gives a lamp no color.
pub open spec fn bad_lamp_color(id: u16, s: Seq<char>) -> ErrorView {
    ErrorView::InvalidArgument(
        "Invalid color '"@ + s + "' for lamp "@ + text::decimal(id as nat)
            + ". Use a preset ("@ + color::all_names() + "), or a 6-digit hex code."@,
    )
}

/// The color of a lamp, from what the color text gave.
pub open spec fn lamp_color(id: u16, s: Seq<char>, rgb: Option<(u8, u8, u8)>, intensity: u8) -> Result<
    LampColor,
    ErrorView,
> {
    match rgb {
        Some((red, green, blue)) => Ok(
            LampColor { lamp_id: id, red, green, blue, intensity },
        ),
        None => Err(bad_lamp_color(id, s)),
    }
}

/// A lamp's color or an error over mathematical values.
pub open spec fn lamp_color_result(r: Result<LampColor, Error>) -> Result<LampColor, ErrorView> {
    match r {
        Ok(c) => Ok(c),
        Err(e) => Err(e@),
    }
}

/// The color of a lamp, from what the color text gave.
pub fn make_lamp_color(id: u16, s: &str, rgb: Option<(u8, u8, u8)>, intensity: u8) -> (r: Result<
    LampColor,
    Error,
>)
    ensures
        lamp_color_result(r) == lamp_color(id, s@, rgb, intensity),
{
    match rgb {
        Some((red, green, blue)) => Ok(LampColor { lamp_id: id, red, green, blue, intensity }),
        None => Err(
            Error::InvalidArgument(
                "Invalid color '".to_string().concat(s).concat("' for lamp ").concat(
                    text::decimal_text(id as u64).as_str(),
                ).concat(". Use a preset (").concat(color::preset_names().as_str()).concat(
                    "), or a 6-digit hex code.",
                ),
            ),
        ),
    }
}

/// The colors of lamps: all of them, or the error for the first text that gives no color.
pub open spec fn lamp_colors(lamps: Seq<(u16, Seq<char>)>, intensity: u8) -> Result<
    Seq<LampColor>,
    ErrorView,
>
    decreases lamps.len(),
{
    if lamps.len() == 0 {
        Ok(Seq::empty())
    } else {
        match lamp_colors(lamps.drop_last(), intensity) {
            Err(e) => Err(e),
            Ok(before) => match lamp_color(
                lamps.last().0,
                lamps.last().1,
                single_color(lamps.last().1),
                intensity,
            ) {
                Ok(c) => Ok(before.push(c)),
                Err(e) => Err(e),
            },
        }
    }
}

/// Lamps' colors or an error over mathematical values.
pub open spec fn lamp_colors_result(r: Result<Vec<LampColor>, Error>) -> Result<
    Seq<LampColor>,
    ErrorView,
> {
    match r {
        Ok(colors) => Ok(colors@),
        Err(e) => Err(e@),
    }
}

proof fn first_error_stays(lamps: Seq<(u16, Seq<char>)>, intensity: u8, k: int)
    requires
        0 <= k <= lamps.len(),
        lamp_colors(lamps.take(k), intensity) is Err,
    ensures
        lamp_colors(lamps, intensity) == lamp_colors(lamps.take(k), intensity),
    decreases lamps.len(),
{
    if k < lamps.len() {
        assert(lamps.drop_last().take(k) =~= lamps.take(k));
        first_error_stays(lamps.drop_last(), intensity, k);
    } else {
        assert(lamps.take(k) =~= lamps);
    }
}

/// Reads the colors of lamps.
pub fn parse_lamp_colors(lamps: &Vec<(u16, String)>, intensity: u8) -> (r: Result<
    Vec<LampColor>,
    Error,
>)
    ensures
        lamp_colors_result(r) == lamp_colors(args::lamps_view(lamps@), intensity),
{
    let ghost all = args::lamps_view(lamps@);
    let mut colors: Vec<LampColor> = Vec::new();
    let mut i: usize = 0;
    assert(all.take(0) =~= Seq::empty());
    assert(lamp_colors(all.take(0), intensity) == Ok::<Seq<LampColor>, ErrorView>(Seq::empty()));
    while i < lamps.len()
        invariant
            i <= lamps@.len(),
            all == args::lamps_view(lamps@),
            lamp_colors(all.take(i as int), intensity) == Ok::<Seq<LampColor>, ErrorView>(colors@),
        decreases lamps@.len() - i,
    {
        let (id, s) = &lamps[i];
        let mut one: Vec<String> = Vec::new();
        one.push(s.clone());
        let rgb = color::parse_color(one.as_slice());
        proof {
            assert(text::texts_view(one@) =~= seq![s@]);
            assert(all.take(i + 1).drop_last() =~= all.take(i as int));
            assert(all.take(i + 1).last() == (*id, s@));
        }
        match make_lamp_color(*id, s.as_str(), rgb, intensity) {
            Ok(c) => {
                colors.push(c);
            },
            Err(e) => {
                proof {
                    first_error_stays(all, intensity, i + 1);
                }
                return Err(e);
            },
        }
        i = i + 1;
    }
    assert(all.take(i as int) =~= all);
    Ok(colors)
}

/// What is to be done for a command.
#[allow(inconsistent_fields)]
pub enum Step<'a> {
    /// Print these lines, and all is done.
    Print { lines: Vec<String> },
    /// Complain with these lines, and give up.
    Complain { lines: Vec<String> },
    /// Give up with an error.
    Refuse { error: Error },
    /// Read everything from a LampArray device and show it.
    ShowLamps { info: &'a LampArrayInfo },
    /// Set all lamps of a LampArray device.
    SetLamps { info: &'a LampArrayInfo, red: u8, green: u8, blue: u8, intensity: u8 },
    /// Set an RGB LED.
    SetLed { info: &'a LedRgbInfo, red: u8, green: u8, blue: u8, intensity: u8 },
    /// Set individual lamps of a LampArray device.
    SetEach { info: &'a LampArrayInfo, colors: Vec<LampColor> },
    /// Turn the AutonomousMode of a LampArray device on or off.
    Switch { info: &'a LampArrayInfo, enabled: bool },
}

/// `Step` over mathematical values.
#[allow(inconsistent_fields)]
pub enum StepView {
    Print { lines: Seq<Seq<char>> },
    Complain { lines: Seq<Seq<char>> },
    Refuse { error: ErrorView },
    ShowLamps { info: LampArrayInfoView },
    SetLamps { info: LampArrayInfoView, red: u8, green: u8, blue: u8, intensity: u8 },
    SetLed { info: LedRgbInfoView, red: u8, green: u8, blue: u8, intensity: u8 },
    SetEach { info: LampArrayInfoView, colors: Seq<LampColor> },
    Switch { info: LampArrayInfoView, enabled: bool },
}

impl View for Step<'_> {
    type V = StepView;

    open spec fn view(&self) -> StepView {
        match self {
            Step::Print { lines } => StepView::Print { lines: text::texts_view(lines@) },
            Step::Complain { lines } => StepView::Complain { lines: text::texts_view(lines@) },
            Step::Refuse { error } => StepView::Refuse { error: error@ },
            Step::ShowLamps { info } => StepView::ShowLamps { info: info@ },
            Step::SetLamps { info, red, green, blue, intensity } => StepView::SetLamps {
                info: info@,
                red: *red,
                green: *green,
                blue: *blue,
                intensity: *intensity,
            },
            Step::SetLed { info, red, green, blue, intensity } => StepView::SetLed {
                info: info@,
                red: *red,
                green: *green,
                blue: *blue,
                intensity: *intensity,
            },
            Step::SetEach { info, colors } => StepView::SetEach { info: info@, colors: colors@ },
            Step::Switch { info, enabled } => StepView::Switch { info: info@, enabled: *enabled },
        }
    }
}

/// The complaint that there is no device to act on.
pub open spec fn no_device_text(path: Option<Seq<char>>) -> Seq<Seq<char>> {
    match path {
        Some(p) => seq!["Error: No RGB device found at "@ + p],
        None => seq![
            "Error: No HID RGB devices found."@,
            "Check permissions on /dev/hidraw* — see README for udev setup."@,
        ],
    }
}

/// The lines that complain that there is no device to act on.
pub fn no_device_lines(path: &Option<String>) -> (lines: Vec<String>)
    ensures
        text::texts_view(lines@) == no_device_text(lexer::text_view(*path)),
{
    let mut lines: Vec<String> = Vec::new();
    match path {
        Some(p) => {
            lines.push("Error: No RGB device found at ".to_string().concat(p.as_str()));
        },
        None => {
            lines.push("Error: No HID RGB devices found.".to_string());
            lines.push(
                "Check permissions on /dev/hidraw* — see README for udev setup.".to_string(),
            );
        },
    }
    assert(text::texts_view(lines@) =~= no_device_text(lexer::text_view(*path)));
    lines
}

/// The complaint about arguments that make no color.
pub open spec fn bad_color_text() -> Seq<Seq<char>> {
    seq![
        "Error: Invalid color. Use a preset ("@ + color::all_names()
            + "), R G B values (0-255), or a 6-digit hex code."@,
    ]
}

/// `set` with the color that its arguments gave.
pub open spec fn set_step(
    device: DeviceInfoView,
    rgb: Option<(u8, u8, u8)>,
    intensity: u8,
) -> StepView {
    match rgb {
        None => StepView::Complain { lines: bad_color_text() },
        Some((red, green, blue)) => match device {
            DeviceInfoView::LampArray(info) => StepView::SetLamps {
                info,
                red,
                green,
                blue,
                intensity,
            },
            DeviceInfoView::LedRgb(info) => StepView::SetLed { info, red, green, blue, intensity },
        },
    }
}

/// Plans `set` with the color that its arguments gave.
pub fn plan_set<'a>(device: &'a DeviceInfo, rgb: Option<(u8, u8, u8)>, intensity: u8) -> (step: Step<
    'a,
>)
    ensures
        step@ == set_step(device@, rgb, intensity),
{
    match rgb {
        None => {
            let mut lines: Vec<String> = Vec::new();
            lines.push(
                "Error: Invalid color. Use a preset (".to_string().concat(
                    color::preset_names().as_str(),
                ).concat("), R G B values (0-255), or a 6-digit hex code."),
            );
            assert(text::texts_view(lines@) =~= bad_color_text());
            Step::Complain { lines }
        },
        Some((red, green, blue)) => match device {
            DeviceInfo::LampArray(info) => Step::SetLamps { info, red, green, blue, intensity },
            DeviceInfo::LedRgb(info) => Step::SetLed { info, red, green, blue, intensity },
        },
    }
}

/// The complaint about `set-lamp` without a lamp.
pub open spec fn no_lamps_text() -> Seq<Seq<char>> {
    seq![
        "Error: set-lamp requires at least one ID:COLOR pair."@,
        "Example: hid-rgb-ctl set-lamp 0:red 1:00ff00 2:blue"@,
    ]
}

/// `set-lamp` with what its color texts gave.
pub open spec fn set_lamp_step(
    device: DeviceInfoView,
    colors: Result<Seq<LampColor>, ErrorView>,
) -> StepView {
    match device {
        DeviceInfoView::LampArray(info) => match colors {
            Ok(colors) => StepView::SetEach { info, colors },
            Err(error) => StepView::Refuse { error },
        },
        DeviceInfoView::LedRgb(_) => StepView::Refuse { error: ErrorView::NoMultiUpdate },
    }
}

/// `get` on a device. What an LED Page device has to show is known already.
pub open spec fn get_step(device: DeviceInfoView) -> StepView {
    match device {
        DeviceInfoView::LampArray(info) => StepView::ShowLamps { info },
        DeviceInfoView::LedRgb(info) => StepView::Print {
            lines: led_rgb_text(
                LedRgbAttributesView {
                    name: info.name,
                    path: info.hidraw_path,
                    protocol: "LED Page RGB (Usage Page 0x08, Section 11.7)"@,
                    report_id: info.report_id,
                    channel_size: info.channel_size,
                    has_intensity: info.intensity_offset is Some,
                },
            ),
        },
    }
}

/// `auto` on a device.
pub open spec fn auto_step(device: DeviceInfoView, state: Seq<char>) -> StepView {
    match device {
        DeviceInfoView::LampArray(info) => StepView::Switch { info, enabled: state == "on"@ },
        DeviceInfoView::LedRgb(_) => StepView::Refuse { error: ErrorView::NoAutonomousMode },
    }
}

/// What is to be done for a command, with the devices that were found. `list` needs no device; all
/// other commands do.
pub open spec fn planned(
    devices: Seq<DeviceInfoView>,
    path: Option<Seq<char>>,
    command: CommandView,
) -> StepView {
    match (command, chosen(devices, path)) {
        (CommandView::List, _) => StepView::Print { lines: list_text(devices) },
        (_, None) => StepView::Complain { lines: no_device_text(path) },
        (CommandView::Get, Some(device)) => get_step(device),
        (CommandView::SetColor { color: texts, intensity }, Some(device)) => set_step(
            device,
            color::color_of(
                texts,
                if texts.len() == 1 {
                    color::preset_named(color::lowercase(texts[0]))
                } else {
                    None
                },
            ),
            intensity,
        ),
        (CommandView::SetLamp { lamps, intensity }, Some(device)) => if lamps.len() == 0 {
            StepView::Complain { lines: no_lamps_text() }
        } else {
            set_lamp_step(device, lamp_colors(lamps, intensity))
        },
        (CommandView::Auto { state }, Some(device)) => auto_step(device, state),
    }
}

/// Decides what is to be done for a command.
pub fn plan<'a>(devices: &'a [DeviceInfo], path: &Option<String>, command: &Command) -> (step: Step<
    'a,
>)
    ensures
        step@ == planned(discovery::devices_view(devices@), lexer::text_view(*path), command@),
{
    match (command, find_device(devices, path)) {
        (Command::List, _) => Step::Print { lines: list_lines(devices) },
        (_, None) => Step::Complain { lines: no_device_lines(path) },
        (Command::Get, Some(device)) => match device {
            DeviceInfo::LampArray(info) => Step::ShowLamps { info },
            DeviceInfo::LedRgb(info) => Step::Print {
                lines: led_rgb_lines(&LedRgbDevice::new(info).get_attributes()),
            },
        },
        (Command::SetColor { color: texts, intensity }, Some(device)) => {
            let rgb = color::parse_color(texts.as_slice());
            assert(texts@.len() == 1 ==> text::texts_view(texts@)[0] == texts@[0]@);
            plan_set(device, rgb, *intensity)
        },
        (Command::SetLamp { lamps, intensity }, Some(device)) => {
            if lamps.len() == 0 {
                let mut lines: Vec<String> = Vec::new();
                lines.push("Error: set-lamp requires at least one ID:COLOR pair.".to_string());
                lines.push("Example: hid-rgb-ctl set-lamp 0:red 1:00ff00 2:blue".to_string());
                assert(text::texts_view(lines@) =~= no_lamps_text());
                return Step::Complain { lines };
            }
            match device {
                DeviceInfo::LampArray(info) => match parse_lamp_colors(lamps, *intensity) {
                    Ok(colors) => Step::SetEach { info, colors },
                    Err(error) => Step::Refuse { error },
                },
                DeviceInfo::LedRgb(_) => Step::Refuse { error: Error::NoMultiUpdate },
            }
        },
        (Command::Auto { state }, Some(device)) => match device {
            DeviceInfo::LampArray(info) => Step::Switch {
                info,
                enabled: text::same(state.as_str(), "on"),
            },
            DeviceInfo::LedRgb(_) => Step::Refuse { error: Error::NoAutonomousMode },
        },
    }
}

/// What is said of an error that a command ended with.
pub open spec fn error_text(e: ErrorView, device_path: Seq<char>) -> Seq<Seq<char>> {
    let hint = "Run with sudo or set up a udev rule — see README."@;
    match e {
        ErrorView::PermissionDenied { path } => seq![
            "Error: Permission denied on "@ + path + "."@,
            hint,
        ],
        ErrorView::Io(failure) if failure.kind is PermissionDenied => seq![
            "Error: Permission denied on "@ + device_path + "."@,
            hint,
        ],
        _ => seq!["Error: "@ + e.message()],
    }
}

/// The lines that complain of an error: where permission is denied, with a hint.
pub fn error_lines(e: &Error, device_path: &str) -> (lines: Vec<String>)
    ensures
        text::texts_view(lines@) == error_text(e@, device_path@),
{
    let mut lines: Vec<String> = Vec::new();
    let denied: Option<String> = match e {
        Error::PermissionDenied { path } => Some(path.clone()),
        Error::Io(failure) => match failure.kind {
            IoKind::PermissionDenied => Some(device_path.to_string()),
            _ => None,
        },
        _ => None,
    };
    match denied {
        Some(path) => {
            lines.push(
                "Error: Permission denied on ".to_string().concat(path.as_str()).concat("."),
            );
            lines.push("Run with sudo or set up a udev rule — see README.".to_string());
        },
        None => {
            lines.push(plain_error_line(e));
        },
    }
    assert(text::texts_view(lines@) =~= error_text(e@, device_path@));
    lines
}

/// The line that complains of an error.
pub fn plain_error_line(e: &Error) -> (line: String)
    ensures
        line@ == "Error: "@ + e@.message(),
{
    "Error: ".to_string().concat(e.message().as_str())
}

/// A command with a path acts on the first device at that path, if there is one, and on no other.
pub proof fn path_chooses_the_device(devices: Seq<DeviceInfoView>, path: Seq<char>)
    ensures
        match chosen(devices, Some(path)) {
            Some(device) => exists|i: int|
                0 <= i < devices.len() && #[trigger] devices[i] == device && device.hidraw_path()
                    == path && forall|k: int|
                    0 <= k < i ==> (#[trigger] devices[k]).hidraw_path() != path,
            None => forall|i: int|
                0 <= i < devices.len() ==> (#[trigger] devices[i]).hidraw_path() != path,
        },
    decreases devices.len(),
{
    if devices.len() > 0 && devices[0].hidraw_path() != path {
        let rest = devices.drop_first();
        path_chooses_the_device(rest, path);
        match chosen(rest, Some(path)) {
            Some(device) => {
                let i = choose|i: int|
                    0 <= i < rest.len() && #[trigger] rest[i] == device && device.hidraw_path()
                        == path && forall|k: int|
                        0 <= k < i ==> (#[trigger] rest[k]).hidraw_path() != path;
                assert(devices[i + 1] == device);
                assert forall|k: int| 0 <= k < i + 1 implies (
                #[trigger] devices[k]).hidraw_path() != path by {
                    if k > 0 {
                        assert(rest[k - 1] == devices[k]);
                    }
                }
            },
            None => {
                assert forall|k: int| 0 <= k < devices.len() implies (
                #[trigger] devices[k]).hidraw_path() != path by {
                    if k > 0 {
                        assert(rest[k - 1] == devices[k]);
                    }
                }
            },
        }
    } else if devices.len() > 0 {
        assert(devices[0].hidraw_path() == path);
    }
}

/// Every lamp named on the command line is set, in the order given, to the color given for it and
/// to the one intensity.
pub proof fn every_lamp_gets_its_color(lamps: Seq<(u16, Seq<char>)>, intensity: u8)
    requires
        lamp_colors(lamps, intensity) is Ok,
    ensures
        ({
            let colors = lamp_colors(lamps, intensity)->Ok_0;
            &&& colors.len() == lamps.len()
            &&& forall|i: int|
                0 <= i < lamps.len() ==> {
                    &&& (#[trigger] colors[i]).lamp_id == lamps[i].0
                    &&& single_color(lamps[i].1) == Some(
                        (colors[i].red, colors[i].green, colors[i].blue),
                    )
                    &&& colors[i].intensity == intensity
                }
        }),
    decreases lamps.len(),
{
    if lamps.len() > 0 {
        every_lamp_gets_its_color(lamps.drop_last(), intensity);
    }
}

} // verus!
