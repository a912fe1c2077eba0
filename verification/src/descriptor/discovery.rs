//! Discovery: which of the hidraw devices of a system are RGB devices.
//!
//! The system's view of a hidraw device comes as a [`HidrawEntry`]; what the descriptors in the
//! entries say decides.

use vstd::prelude::*;
use vstd::string::StrSliceExecFns;
use vstd::string::StringExecFns;

use super::order::sort_entries;
use super::parser::parse_descriptor;
use super::state::LedRgbChannelBuilder;
use super::{
    order, state, DeviceInfo, DeviceInfoView, LampArrayInfo, LampArrayInfoView, LampArrayReports,
    LedRgbInfo, LedRgbInfoView, ReportType,
};
use crate::text;

verus! {

/// One hidraw device as sysfs shows it.
#[derive(Debug, Clone)]
pub struct HidrawEntry {
    /// The name of the device node, such as `hidraw0`.
    pub name: String,
    /// The HID report descriptor, if it can be read.
    pub descriptor: Option<Vec<u8>>,
    /// The text of the device's uevent file, if it can be read.
    pub uevent: Option<String>,
}

/// A `HidrawEntry` over mathematical values.
pub struct HidrawEntryView {
    pub name: Seq<char>,
    pub descriptor: Option<Seq<u8>>,
    pub uevent: Option<Seq<char>>,
}

impl View for HidrawEntry {
    type V = HidrawEntryView;

    open spec fn view(&self) -> HidrawEntryView {
        HidrawEntryView {
            name: self.name@,
            descriptor: match self.descriptor {
                Some(bytes) => Some(bytes@),
                None => None,
            },
            uevent: match self.uevent {
                Some(text) => Some(text@),
                None => None,
            },
        }
    }
}

/// What precedes the device name on its line of a uevent file.
pub open spec fn name_key() -> Seq<char> {
    seq!['H', 'I', 'D', '_', 'N', 'A', 'M', 'E', '=']
}

/// Whether a line that gives the device name starts at `i`.
pub open spec fn named_at(content: Seq<char>, i: int) -> bool {
    &&& i == 0 || content[i - 1] == '\n'
    &&& i + name_key().len() <= content.len()
    &&& content.subrange(i, i + name_key().len()) == name_key()
}

/// Where the line that `i` lies in ends: at the next newline, or at the end of the text.
pub open spec fn line_end(content: Seq<char>, i: int) -> int
    decreases content.len() - i,
{
    if i >= content.len() {
        content.len() as int
    } else if content[i] == '\n' {
        i
    } else {
        line_end(content, i + 1)
    }
}

/// The rest of the line from `i` on. A carriage return before the newline belongs to the line's
/// ending.
pub open spec fn rest_of_line(content: Seq<char>, i: int) -> Seq<char> {
    let end = line_end(content, i);
    if end < content.len() && end > i && content[end - 1] == '\r' {
        content.subrange(i, end - 1)
    } else {
        content.subrange(i, end)
    }
}

/// The device name from the first line at or after `i` that gives one.
pub open spec fn name_from(content: Seq<char>, i: int) -> Seq<char>
    decreases content.len() - i,
{
    if i >= content.len() {
        "Unknown"@
    } else if named_at(content, i) {
        rest_of_line(content, i + name_key().len())
    } else {
        name_from(content, i + 1)
    }
}

/// The device name that a uevent file gives.
pub open spec fn hid_name(uevent: Option<Seq<char>>) -> Seq<char> {
    match uevent {
        Some(content) => name_from(content, 0),
        None => "Unknown"@,
    }
}

/// Whether the device name is given on a line at `i`.
fn is_named_at(chars: &Vec<char>, i: usize) -> (b: bool)
    requires
        i <= chars@.len(),
    ensures
        b == named_at(chars@, i as int),
{
    if i > 0 && chars[i - 1] != '\n' {
        return false;
    }
    if chars.len() - i < 9 {
        return false;
    }
    let ghost here = chars@.subrange(i as int, i + 9);
    let same: bool = chars[i] == 'H' && chars[i + 1] == 'I' && chars[i + 2] == 'D' && chars[i + 3]
        == '_' && chars[i + 4] == 'N' && chars[i + 5] == 'A' && chars[i + 6] == 'M' && chars[i + 7]
        == 'E' && chars[i + 8] == '=';
    proof {
        if same {
            assert(here =~= name_key());
        } else {
            assert(here[0] == chars@[i as int] && here[1] == chars@[i + 1] && here[2] == chars@[i
                + 2] && here[3] == chars@[i + 3] && here[4] == chars@[i + 4] && here[5] == chars@[i
                + 5] && here[6] == chars@[i + 6] && here[7] == chars@[i + 7] && here[8] == chars@[i
                + 8]);
            assert(!(here =~= name_key()));
        }
    }
    same
}

/// Where the line that `i` lies in ends.
fn find_line_end(chars: &Vec<char>, i: usize) -> (end: usize)
    requires
        i <= chars@.len(),
    ensures
        end == line_end(chars@, i as int),
        i <= end <= chars@.len(),
{
    let mut end: usize = i;
    while end < chars.len() && chars[end] != '\n'
        invariant
            i <= end <= chars@.len(),
            line_end(chars@, end as int) == line_end(chars@, i as int),
        decreases chars@.len() - end,
    {
        end = end + 1;
    }
    end
}

/// Read HID_NAME from the text of the device's uevent file.
pub fn get_hid_name(uevent: &Option<String>) -> (name: String)
    ensures
        name@ == hid_name(
            match uevent {
                Some(content) => Some(content@),
                None => None,
            },
        ),
{
    if let Some(content) = uevent {
        let chars: Vec<char> = text::chars_of(content.as_str());
        let n: usize = chars.len();
        let mut i: usize = 0;
        while i < n
            invariant
                i <= n,
                n == chars@.len(),
                chars@ == content@,
                *uevent == Some(*content),
                name_from(content@, i as int) == name_from(content@, 0),
            decreases n - i,
        {
            if is_named_at(&chars, i) {
                let start: usize = i + 9;
                let end: usize = find_line_end(&chars, start);
                let last: usize = if end < n && end > start && chars[end - 1] == '\r' {
                    end - 1
                } else {
                    end
                };
                return content.as_str().substring_char(start, last).to_string();
            }
            i = i + 1;
        }
    }
    "Unknown".to_string()
}

/// The path of a device node.
pub open spec fn device_path(name: Seq<char>) -> Seq<char> {
    "/dev/"@ + name
}

/// The device that a complete RGB LED makes.
pub open spec fn led_rgb_device(
    hidraw_path: Seq<char>,
    name: Seq<char>,
    builder: LedRgbChannelBuilder,
) -> DeviceInfoView {
    DeviceInfoView::LedRgb(
        LedRgbInfoView {
            hidraw_path,
            name,
            report_id: builder.report_id,
            report_size: builder.report_size,
            red_offset: builder.red_offset->0,
            blue_offset: builder.blue_offset->0,
            green_offset: builder.green_offset->0,
            intensity_offset: builder.intensity_offset,
            channel_size: builder.channel_size,
            report_type: builder.report_type,
            red_logical_max: builder.red_logical_max,
            green_logical_max: builder.green_logical_max,
            blue_logical_max: builder.blue_logical_max,
            intensity_logical_max: builder.intensity_logical_max,
        },
    )
}

/// The devices that RGB LEDs make. One whose channels lie in an Input report cannot be set, and
/// makes none.
pub open spec fn led_rgb_devices(
    hidraw_path: Seq<char>,
    name: Seq<char>,
    builders: Seq<LedRgbChannelBuilder>,
) -> Seq<DeviceInfoView>
    decreases builders.len(),
{
    if builders.len() == 0 {
        Seq::empty()
    } else {
        let before = led_rgb_devices(hidraw_path, name, builders.drop_last());
        if builders.last().report_type is Input {
            before
        } else {
            before.push(led_rgb_device(hidraw_path, name, builders.last()))
        }
    }
}

/// Whether the reports make a LampArray device: it can be sent colors and be switched to host
/// control.
pub open spec fn lamp_array(reports: LampArrayReports) -> bool {
    reports.range_update is Some && reports.control is Some
}

/// The LampArray device that reports make, if they do.
pub open spec fn lamp_array_devices(
    hidraw_path: Seq<char>,
    name: Seq<char>,
    reports: LampArrayReports,
) -> Seq<DeviceInfoView> {
    if lamp_array(reports) {
        seq![DeviceInfoView::LampArray(LampArrayInfoView { hidraw_path, name, reports })]
    } else {
        Seq::empty()
    }
}

/// The devices that one entry makes: a LampArray, if its reports are there, and then every
/// complete RGB LED that can be set.
pub open spec fn devices_of(entry: HidrawEntryView) -> Seq<DeviceInfoView> {
    match entry.descriptor {
        None => Seq::empty(),
        Some(desc) => {
            let found = state::parsed(desc);
            let path = device_path(entry.name);
            let name = hid_name(entry.uevent);
            lamp_array_devices(path, name, found.sized_reports()) + led_rgb_devices(
                path,
                name,
                found.builders(),
            )
        },
    }
}

/// The devices that all entries make, in the order of the entries.
pub open spec fn devices_of_all(entries: Seq<HidrawEntryView>) -> Seq<DeviceInfoView>
    decreases entries.len(),
{
    if entries.len() == 0 {
        Seq::empty()
    } else {
        devices_of_all(entries.drop_last()) + devices_of(entries.last())
    }
}

/// Entries over mathematical values.
pub open spec fn entries_view(entries: Seq<HidrawEntry>) -> Seq<HidrawEntryView> {
    entries.map_values(|e: HidrawEntry| e@)
}

/// Devices over mathematical values.
pub open spec fn devices_view(devices: Seq<DeviceInfo>) -> Seq<DeviceInfoView> {
    devices.map_values(|d: DeviceInfo| d@)
}

/// The device that a complete RGB LED makes.
fn make_led_rgb_device(entry: &HidrawEntry, builder: &LedRgbChannelBuilder) -> (device: Option<
    DeviceInfo,
>)
    requires
        builder.complete(),
    ensures
        match device {
            Some(d) => !(builder.report_type is Input) && d@ == led_rgb_device(
                device_path(entry@.name),
                hid_name(entry@.uevent),
                *builder,
            ),
            None => builder.report_type is Input,
        },
{
    if let ReportType::Input = builder.report_type {
        return None;
    }
    match (builder.red_offset, builder.blue_offset, builder.green_offset) {
        (Some(red), Some(blue), Some(green)) => Some(
            DeviceInfo::LedRgb(
                LedRgbInfo {
                    hidraw_path: "/dev/".to_string().concat(entry.name.as_str()),
                    name: get_hid_name(&entry.uevent),
                    report_id: builder.report_id,
                    report_size: builder.report_size,
                    red_offset: red,
                    blue_offset: blue,
                    green_offset: green,
                    intensity_offset: builder.intensity_offset,
                    channel_size: builder.channel_size,
                    report_type: builder.report_type,
                    red_logical_max: builder.red_logical_max,
                    green_logical_max: builder.green_logical_max,
                    blue_logical_max: builder.blue_logical_max,
                    intensity_logical_max: builder.intensity_logical_max,
                },
            ),
        ),
        _ => None,
    }
}

/// Adds the devices that one entry makes.
fn add_devices(devices: &mut Vec<DeviceInfo>, entry: &HidrawEntry)
    ensures
        devices_view(final(devices)@) == devices_view(old(devices)@) + devices_of(entry@),
{
    if let Some(desc) = &entry.descriptor {
        let (lamp_reports, led_rgb_builders) = parse_descriptor(desc.as_slice());
        let ghost before = devices_view(devices@);
        let ghost found = state::parsed(desc@);
        let ghost path = device_path(entry@.name);
        let ghost name = hid_name(entry@.uevent);

        // Check for LampArray (Usage Page 0x59)
        if lamp_reports.range_update.is_some() && lamp_reports.control.is_some() {
            devices.push(
                DeviceInfo::LampArray(
                    LampArrayInfo {
                        hidraw_path: "/dev/".to_string().concat(entry.name.as_str()),
                        name: get_hid_name(&entry.uevent),
                        reports: lamp_reports,
                    },
                ),
            );
        }
        let ghost lamps = devices_view(devices@);
        assert(lamps =~= before + lamp_array_devices(path, name, found.sized_reports()));
        assert(lamps =~= lamps + led_rgb_devices(path, name, found.builders().take(0)));

        // Check for LED Page RGB LED (Usage Page 0x08)
        let mut i: usize = 0;
        while i < led_rgb_builders.len()
            invariant
                i <= led_rgb_builders@.len(),
                led_rgb_builders@ == found.builders(),
                path == device_path(entry@.name),
                name == hid_name(entry@.uevent),
                devices_view(devices@) == lamps + led_rgb_devices(
                    path,
                    name,
                    found.builders().take(i as int),
                ),
            decreases led_rgb_builders@.len() - i,
        {
            let ghost prior = devices@;
            let ghost sofar = led_rgb_devices(path, name, found.builders().take(i as int));
            proof {
                super::laws::builders_are_complete(found);
                assert(found.builders()[i as int].complete());
                assert(found.builders().take(i + 1).drop_last() =~= found.builders().take(
                    i as int,
                ));
                assert(found.builders().take(i + 1).last() == led_rgb_builders@[i as int]);
            }
            if let Some(device) = make_led_rgb_device(entry, &led_rgb_builders[i]) {
                let ghost added = device@;
                devices.push(device);
                assert(devices_view(devices@) =~= devices_view(prior).push(added));
                assert(lamps + sofar.push(added) =~= (lamps + sofar).push(added));
            }
            i = i + 1;
        }
        assert(found.builders().take(i as int) =~= found.builders());
        assert(devices_view(devices@) =~= before + devices_of(entry@));
    } else {
        assert(devices_view(devices@) =~= devices_view(devices@) + devices_of(entry@));
    }
}

/// Search the hidraw devices for LampArray and LED RGB support.
///
/// Parses each device's HID report descriptor to find devices implementing:
/// - Usage Page 0x59 (Lighting and Illumination) -- LampArray
/// - Usage Page 0x08 (LED Page) with Usage 0x52 (RGB LED)
///
/// Returns a list of [`DeviceInfo`] objects, in the order of the names of the entries.
pub fn discover_devices(entries: &Vec<HidrawEntry>) -> (devices: Vec<DeviceInfo>)
    ensures
        devices_view(devices@) == devices_of_all(order::by_name(entries_view(entries@))),
{
    let mut devices: Vec<DeviceInfo> = Vec::new();
    let sorted: Vec<&HidrawEntry> = sort_entries(entries);
    let ghost all = order::by_name(entries_view(entries@));
    assert(all.take(0) =~= Seq::empty());
    assert(devices_view(devices@) =~= Seq::empty());
    let mut i: usize = 0;
    while i < sorted.len()
        invariant
            i <= sorted@.len(),
            all == order::refs_view(sorted@),
            devices_view(devices@) == devices_of_all(all.take(i as int)),
        decreases sorted@.len() - i,
    {
        add_devices(&mut devices, sorted[i]);
        assert(all.take(i + 1).drop_last() =~= all.take(i as int));
        assert(all.take(i + 1).last() == sorted@[i as int]@);
        i = i + 1;
    }
    assert(all.take(i as int) =~= all);
    devices
}

/// The devices of two lists of entries are those of the first and then those of the second.
pub proof fn discovery_appends(a: Seq<HidrawEntryView>, b: Seq<HidrawEntryView>)
    ensures
        devices_of_all(a + b) == devices_of_all(a) + devices_of_all(b),
    decreases b.len(),
{
    if b.len() == 0 {
        assert(a + b =~= a);
        assert(devices_of_all(a) + devices_of_all(b) =~= devices_of_all(a));
    } else {
        assert((a + b).drop_last() =~= a + b.drop_last());
        assert((a + b).last() == b.last());
        discovery_appends(a, b.drop_last());
        assert(devices_of_all(a + b) =~= devices_of_all(a) + devices_of_all(b));
    }
}

proof fn led_rgb_devices_come_from_builders(
    hidraw_path: Seq<char>,
    name: Seq<char>,
    builders: Seq<LedRgbChannelBuilder>,
    i: int,
)
    requires
        0 <= i < led_rgb_devices(hidraw_path, name, builders).len(),
    ensures
        exists|k: int|
            0 <= k < builders.len() && !((#[trigger] builders[k]).report_type is Input)
                && led_rgb_devices(hidraw_path, name, builders)[i] == led_rgb_device(
                hidraw_path,
                name,
                builders[k],
            ),
    decreases builders.len(),
{
    let rest = builders.drop_last();
    let before = led_rgb_devices(hidraw_path, name, rest);
    if i < before.len() {
        led_rgb_devices_come_from_builders(hidraw_path, name, rest, i);
        let k = choose|k: int|
            0 <= k < rest.len() && !((#[trigger] rest[k]).report_type is Input) && before[i]
                == led_rgb_device(hidraw_path, name, rest[k]);
        assert(builders[k] == rest[k]);
    } else {
        assert(builders[builders.len() - 1] == builders.last());
    }
}

proof fn device_comes_from_entry(entries: Seq<HidrawEntryView>, i: int)
    requires
        0 <= i < devices_of_all(entries).len(),
    ensures
        exists|k: int|
            0 <= k < entries.len() && devices_of(#[trigger] entries[k]).contains(
                devices_of_all(entries)[i],
            ),
    decreases entries.len(),
{
    if entries.len() > 0 {
        let rest = entries.drop_last();
        let before = devices_of_all(rest);
        if i < before.len() {
            device_comes_from_entry(rest, i);
            let k = choose|k: int|
                0 <= k < rest.len() && devices_of(#[trigger] rest[k]).contains(before[i]);
            assert(entries[k] == rest[k]);
        } else {
            assert(devices_of(entries.last())[i - before.len()] == devices_of_all(entries)[i]);
            assert(entries[entries.len() - 1] == entries.last());
        }
    }
}

/// Every LampArray that is found has the reports by which all its lamps are set to one color and
/// its AutonomousMode is switched.
pub proof fn lamp_arrays_can_be_controlled(entries: Seq<HidrawEntryView>, i: int)
    requires
        0 <= i < devices_of_all(entries).len(),
    ensures
        devices_of_all(entries)[i] matches DeviceInfoView::LampArray(info) ==> lamp_array(
            info.reports,
        ),
{
    let device = devices_of_all(entries)[i];
    device_comes_from_entry(entries, i);
    let k = choose|k: int| 0 <= k < entries.len() && devices_of(#[trigger] entries[k]).contains(device);
    devices_come_from_the_descriptor(entries[k], devices_of(entries[k]).index_of(device));
}

/// Every LED RGB device that is found can be sent its report: the report is a Feature or an Output
/// report.
pub proof fn leds_can_be_set(entries: Seq<HidrawEntryView>, i: int)
    requires
        0 <= i < devices_of_all(entries).len(),
    ensures
        devices_of_all(entries)[i] matches DeviceInfoView::LedRgb(info) ==> info.report_type
            is Feature || info.report_type is Output,
{
    let device = devices_of_all(entries)[i];
    device_comes_from_entry(entries, i);
    let k = choose|k: int| 0 <= k < entries.len() && devices_of(#[trigger] entries[k]).contains(device);
    devices_come_from_the_descriptor(entries[k], devices_of(entries[k]).index_of(device));
}

/// A device comes from the descriptor of its entry: a LampArray from reports that make one, and an
/// LED RGB device from a complete RGB LED in a report that can be sent.
pub proof fn devices_come_from_the_descriptor(entry: HidrawEntryView, i: int)
    requires
        0 <= i < devices_of(entry).len(),
    ensures
        match devices_of(entry)[i] {
            DeviceInfoView::LampArray(info) => lamp_array(info.reports),
            DeviceInfoView::LedRgb(info) => {
                &&& !(info.report_type is Input)
                &&& entry.descriptor is Some
                &&& exists|k: int|
                    0 <= k < state::parsed(entry.descriptor->0).builders().len()
                        && devices_of(entry)[i] == led_rgb_device(
                        device_path(entry.name),
                        hid_name(entry.uevent),
                        #[trigger] state::parsed(entry.descriptor->0).builders()[k],
                    )
            },
        },
{
    if let Some(desc) = entry.descriptor {
        let found = state::parsed(desc);
        let path = device_path(entry.name);
        let name = hid_name(entry.uevent);
        let lamps = lamp_array_devices(path, name, found.sized_reports());
        if i >= lamps.len() {
            led_rgb_devices_come_from_builders(path, name, found.builders(), i - lamps.len());
        }
    }
}

/// A device is found only through its descriptor: an entry without one, or with an empty one,
/// makes no device.
pub proof fn no_descriptor_no_device(entry: HidrawEntryView)
    requires
        entry.descriptor matches Some(desc) ==> desc.len() == 0,
    ensures
        devices_of(entry).len() == 0,
{
    if let Some(desc) = entry.descriptor {
        let found = state::parsed(desc);
        assert(found == state::DescriptorState::initial());
        super::laws::builders_are_complete(found);
        if found.builders().len() > 0 {
            assert(found.channels.contains_key(found.builders()[0].report_id));
        }
    }
}

/// The path of a device node is its name below `/dev`.
pub proof fn paths_are_below_dev(name: Seq<char>)
    ensures
        device_path(name) == seq!['/', 'd', 'e', 'v', '/'] + name,
{
    reveal_strlit("/dev/");
    assert("/dev/"@ =~= seq!['/', 'd', 'e', 'v', '/']);
}

/// A LampArray is found wherever the descriptor has a range update and a control report, first
/// among the devices of its entry: under the entry's path and name, with the reports as described.
/// An entry makes no other LampArray.
pub proof fn every_lamp_array_is_found(entry: HidrawEntryView, i: int)
    requires
        entry.descriptor is Some,
    ensures
        ({
            let reports = state::parsed(entry.descriptor->0).sized_reports();
            let devices = devices_of(entry);
            &&& reports.range_update is Some && reports.control is Some ==> {
                &&& devices.len() > 0
                &&& devices[0] == DeviceInfoView::LampArray(
                    LampArrayInfoView {
                        hidraw_path: device_path(entry.name),
                        name: hid_name(entry.uevent),
                        reports,
                    },
                )
            }
            &&& 0 <= i < devices.len() && devices[i] is LampArray ==> {
                &&& i == 0
                &&& reports.range_update is Some
                &&& reports.control is Some
            }
        }),
{
    let found = state::parsed(entry.descriptor->0);
    let path = device_path(entry.name);
    let name = hid_name(entry.uevent);
    let lamps = lamp_array_devices(path, name, found.sized_reports());
    if 0 <= i < devices_of(entry).len() && i >= lamps.len() {
        led_rgb_devices_come_from_builders(path, name, found.builders(), i - lamps.len());
    }
}

/// A device with just the channels, the maxima and the type of an RGB LED.
pub open spec fn is_the_led(info: LedRgbInfoView, b: LedRgbChannelBuilder) -> bool {
    &&& info.report_id == b.report_id
    &&& info.report_size == b.report_size
    &&& b.red_offset == Some(info.red_offset)
    &&& b.blue_offset == Some(info.blue_offset)
    &&& b.green_offset == Some(info.green_offset)
    &&& b.intensity_offset == info.intensity_offset
    &&& info.channel_size == b.channel_size
    &&& info.report_type == b.report_type
    &&& info.red_logical_max == b.red_logical_max
    &&& info.green_logical_max == b.green_logical_max
    &&& info.blue_logical_max == b.blue_logical_max
    &&& info.intensity_logical_max == b.intensity_logical_max
}

proof fn sendable_leds_make_devices(
    hidraw_path: Seq<char>,
    name: Seq<char>,
    builders: Seq<LedRgbChannelBuilder>,
    k: int,
) -> (i: int)
    requires
        0 <= k < builders.len(),
        !(builders[k].report_type is Input),
    ensures
        0 <= i < led_rgb_devices(hidraw_path, name, builders).len(),
        led_rgb_devices(hidraw_path, name, builders)[i] == led_rgb_device(
            hidraw_path,
            name,
            builders[k],
        ),
    decreases builders.len(),
{
    if k == builders.len() - 1 {
        led_rgb_devices(hidraw_path, name, builders.drop_last()).len() as int
    } else {
        sendable_leds_make_devices(hidraw_path, name, builders.drop_last(), k)
    }
}

/// Every complete RGB LED in a Feature or Output report is found, under the path and name of its
/// entry, with the report, the channels and the maxima that the descriptor gives it.
pub proof fn every_led_is_found(entry: HidrawEntryView, k: int)
    requires
        entry.descriptor is Some,
        0 <= k < state::parsed(entry.descriptor->0).builders().len(),
        !(state::parsed(entry.descriptor->0).builders()[k].report_type is Input),
    ensures
        exists|i: int|
            0 <= i < devices_of(entry).len() && (#[trigger] devices_of(
                entry,
            )[i] matches DeviceInfoView::LedRgb(info) && info.hidraw_path == device_path(entry.name)
                && info.name == hid_name(entry.uevent) && is_the_led(
                info,
                state::parsed(entry.descriptor->0).builders()[k],
            )),
{
    let found = state::parsed(entry.descriptor->0);
    let path = device_path(entry.name);
    let name = hid_name(entry.uevent);
    let lamps = lamp_array_devices(path, name, found.sized_reports());
    super::laws::builders_are_complete(found);
    assert(found.builders()[k].complete());
    let i = sendable_leds_make_devices(path, name, found.builders(), k);
    assert(devices_of(entry)[lamps.len() + i] == led_rgb_device(path, name, found.builders()[k]));
}

proof fn leds_ascend(
    hidraw_path: Seq<char>,
    name: Seq<char>,
    builders: Seq<LedRgbChannelBuilder>,
    i: int,
    j: int,
)
    requires
        forall|a: int, b: int|
            0 <= a < b < builders.len() ==> (#[trigger] builders[a]).report_id < (
            #[trigger] builders[b]).report_id,
        0 <= i < j < led_rgb_devices(hidraw_path, name, builders).len(),
    ensures
        led_rgb_devices(hidraw_path, name, builders)[i] is LedRgb,
        led_rgb_devices(hidraw_path, name, builders)[j] is LedRgb,
        led_rgb_devices(hidraw_path, name, builders)[i]->LedRgb_0.report_id < led_rgb_devices(
            hidraw_path,
            name,
            builders,
        )[j]->LedRgb_0.report_id,
    decreases builders.len(),
{
    let rest = builders.drop_last();
    let before = led_rgb_devices(hidraw_path, name, rest);
    if j < before.len() {
        leds_ascend(hidraw_path, name, rest, i, j);
    } else {
        led_rgb_devices_come_from_builders(hidraw_path, name, rest, i);
        let k = choose|k: int|
            0 <= k < rest.len() && !((#[trigger] rest[k]).report_type is Input) && before[i]
                == led_rgb_device(hidraw_path, name, rest[k]);
        assert(builders[k] == rest[k]);
        assert(builders[builders.len() - 1] == builders.last());
    }
}

/// No RGB LED is found twice: the LED RGB devices of an entry come in ascending order of their
/// report IDs, and each is one of the RGB LEDs that the descriptor describes.
pub proof fn leds_are_found_once(entry: HidrawEntryView, i: int, j: int)
    requires
        0 <= i < j < devices_of(entry).len(),
        devices_of(entry)[i] is LedRgb,
    ensures
        devices_of(entry)[j] is LedRgb,
        devices_of(entry)[i]->LedRgb_0.report_id < devices_of(entry)[j]->LedRgb_0.report_id,
{
    let found = state::parsed(entry.descriptor->0);
    let path = device_path(entry.name);
    let name = hid_name(entry.uevent);
    let lamps = lamp_array_devices(path, name, found.sized_reports());
    super::laws::builders_are_complete(found);
    leds_ascend(path, name, found.builders(), i - lamps.len(), j - lamps.len());
}

/// The devices of a single entry are its own, no entries make no devices, and every device of every
/// entry is found.
pub proof fn every_entry_counts(entries: Seq<HidrawEntryView>, k: int)
    requires
        0 <= k < entries.len(),
    ensures
        devices_of_all(Seq::empty()).len() == 0,
        devices_of_all(seq![entries[k]]) == devices_of(entries[k]),
        devices_of_all(entries) == devices_of_all(entries.take(k)) + devices_of(entries[k])
            + devices_of_all(entries.skip(k + 1)),
{
    let one = seq![entries[k]];
    let none = Seq::<HidrawEntryView>::empty();
    assert(one.drop_last() =~= none);
    assert(devices_of_all(none) == Seq::<DeviceInfoView>::empty());
    assert(devices_of_all(one) =~= devices_of(entries[k]));
    discovery_appends(entries.take(k), one);
    discovery_appends(entries.take(k) + one, entries.skip(k + 1));
    assert(entries.take(k) + one + entries.skip(k + 1) =~= entries);
}

/// The line that gives the device name starts at `i`: `HID_NAME=` at the start of a line.
pub open spec fn name_line_at(content: Seq<char>, i: int) -> bool {
    &&& i == 0 || content[i - 1] == '\n'
    &&& i + 9 <= content.len()
    &&& content.subrange(i, i + 9) == seq!['H', 'I', 'D', '_', 'N', 'A', 'M', 'E', '=']
}

proof fn name_is_further_on(content: Seq<char>, i: int, at: int)
    requires
        0 <= i <= at <= content.len(),
        forall|k: int| i <= k < at ==> !name_line_at(content, k),
    ensures
        name_from(content, i) == name_from(content, at),
    decreases at - i,
{
    if i < at {
        assert(!name_line_at(content, i));
        name_is_further_on(content, i + 1, at);
    }
}

proof fn line_ends_at(content: Seq<char>, i: int, end: int)
    requires
        0 <= i <= end <= content.len(),
        forall|k: int| i <= k < end ==> #[trigger] content[k] != '\n',
        end == content.len() || content[end] == '\n',
    ensures
        line_end(content, i) == end,
    decreases end - i,
{
    if i < end {
        line_ends_at(content, i + 1, end);
    }
}

/// What ends with a newline and has no line with the name has none before what is appended either.
proof fn no_name_line_before(before: Seq<char>, rest: Seq<char>, k: int)
    requires
        before.len() == 0 || before.last() == '\n',
        forall|j: int| 0 <= j < before.len() ==> !name_line_at(before, j),
        0 <= k < before.len(),
    ensures
        !name_line_at(before + rest, k),
{
    let content = before + rest;
    let at = before.len() as int;
    let key = seq!['H', 'I', 'D', '_', 'N', 'A', 'M', 'E', '='];
    if name_line_at(content, k) {
        assert(!name_line_at(before, k));
        assert(k == 0 || content[k - 1] == before[k - 1]);
        let line = content.subrange(k, k + 9);
        if k + 9 <= at {
            assert(before.subrange(k, k + 9) =~= line);
        } else {
            // The key would run over the newline at the end of what comes before.
            assert(line[at - 1 - k] == content[at - 1]);
            assert(content[at - 1] == '\n');
            assert(line[at - 1 - k] == key[at - 1 - k]);
            assert(forall|j: int| 0 <= j < 9 ==> #[trigger] key[j] != '\n');
        }
    }
}

/// The rest of a line that starts with the name and has one of the three endings.
proof fn rest_of_named_line(content: Seq<char>, start: int, name: Seq<char>, ending: Seq<char>)
    requires
        0 <= start,
        start + name.len() + ending.len() <= content.len(),
        content.subrange(start, start + name.len()) == name,
        content.subrange(start + name.len(), start + name.len() + ending.len()) == ending,
        forall|k: int| 0 <= k < name.len() ==> #[trigger] name[k] != '\n',
        ending == seq!['\r', '\n'] || (ending == seq!['\n'] && (name.len() == 0 || name.last()
            != '\r')) || (ending.len() == 0 && content.len() == start + name.len()),
    ensures
        rest_of_line(content, start) == name,
{
    let stop = start + name.len();
    let line = content.subrange(start, stop);
    let tail = content.subrange(stop, stop + ending.len());
    assert forall|k: int| start <= k < stop implies #[trigger] content[k] != '\n' by {
        assert(content[k] == line[k - start]);
        assert(line[k - start] == name[k - start]);
    }
    if ending == seq!['\r', '\n'] {
        assert(content[stop] == tail[0] && content[stop + 1] == tail[1]);
        line_ends_at(content, start, stop + 1);
    } else if ending == seq!['\n'] {
        assert(content[stop] == tail[0]);
        line_ends_at(content, start, stop);
        if name.len() > 0 {
            assert(content[stop - 1] == line[name.len() - 1]);
        }
    } else {
        line_ends_at(content, start, stop);
    }
}

/// The device name is what follows `HID_NAME=` on the first line that starts with it, up to the end
/// of that line: a newline, a carriage return and a newline, or the end of the text.
pub proof fn the_name_is_read_off_its_line(
    before: Seq<char>,
    name: Seq<char>,
    ending: Seq<char>,
    after: Seq<char>,
)
    requires
        before.len() == 0 || before.last() == '\n',
        forall|k: int| 0 <= k < before.len() ==> !name_line_at(before, k),
        forall|k: int| 0 <= k < name.len() ==> #[trigger] name[k] != '\n',
        ending == seq!['\r', '\n'] || (ending == seq!['\n'] && (name.len() == 0 || name.last()
            != '\r')) || (ending.len() == 0 && after.len() == 0),
    ensures
        hid_name(
            Some(
                before + (seq!['H', 'I', 'D', '_', 'N', 'A', 'M', 'E', '='] + name + ending
                    + after),
            ),
        ) == name,
{
    let key = seq!['H', 'I', 'D', '_', 'N', 'A', 'M', 'E', '='];
    let rest = key + name + ending + after;
    let content = before + rest;
    let at = before.len() as int;
    assert forall|k: int| 0 <= k < at implies !name_line_at(content, k) by {
        no_name_line_before(before, rest, k);
    }
    name_is_further_on(content, 0, at);
    assert(content.subrange(at, at + 9) =~= key);
    assert(at == 0 || content[at - 1] == before.last());
    assert(content.subrange(at + 9, at + 9 + name.len()) =~= name);
    assert(content.subrange(at + 9 + name.len(), at + 9 + name.len() + ending.len()) =~= ending);
    rest_of_named_line(content, at + 9, name, ending);
    assert(named_at(content, at));
    assert(name_key().len() == 9);
}

/// Without a line that gives it, the device name is unknown.
pub proof fn no_name_is_unknown(content: Seq<char>)
    requires
        forall|k: int| 0 <= k < content.len() ==> !name_line_at(content, k),
    ensures
        hid_name(Some(content)) == "Unknown"@,
        hid_name(None) == "Unknown"@,
{
    name_is_further_on(content, 0, content.len() as int);
}

} // verus!
