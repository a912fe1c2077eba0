//! What a report descriptor says about lamps and RGB LEDs.
//!
//! A descriptor is a sequence of items that change a state: Global items set values that hold until
//! they are set again, Local items collect usages for the next Main item, and Main items open and
//! close collections and lay out data fields. `DescriptorState` is that state, `step` the effect of
//! one item, and `parsed` what is known after all items of a descriptor.
//!
//! Counts of bits are kept in 32 bits, as the items give them, and wrap around.

use vstd::prelude::*;

use super::item::{Item, TYPE_GLOBAL, TYPE_LOCAL, TYPE_MAIN};
use super::{item, LampArrayReports, LampReport, ReportInfo, ReportType};

verus! {

pub const USAGE_PAGE_LED: u32 = 0x08;

pub const USAGE_PAGE_LIGHTING: u32 = 0x59;

// Usage IDs for Lighting and Illumination Page (0x59), Section 26

/// LampArray application collection.
pub const USAGE_LAMP_ARRAY: u32 = 0x01;

pub const USAGE_LAMP_ARRAY_ATTRIBUTES_REPORT: u32 = 0x02;

pub const USAGE_LAMP_ATTR_REQUEST_REPORT: u32 = 0x20;

pub const USAGE_LAMP_ATTR_RESPONSE_REPORT: u32 = 0x22;

pub const USAGE_LAMP_MULTI_UPDATE_REPORT: u32 = 0x50;

pub const USAGE_LAMP_RANGE_UPDATE_REPORT: u32 = 0x60;

pub const USAGE_LAMP_ARRAY_CONTROL_REPORT: u32 = 0x70;

// Usage IDs for LED Page (0x08), Section 11.7

pub const USAGE_RGB_LED: u32 = 0x52;

pub const USAGE_RED_LED_CHANNEL: u32 = 0x53;

/// Blue comes before green.
pub const USAGE_BLUE_LED_CHANNEL: u32 = 0x54;

pub const USAGE_GREEN_LED_CHANNEL: u32 = 0x55;

pub const USAGE_LED_INTENSITY: u32 = 0x56;

// Item tags (prefix byte with size bits masked out)

// Global items

pub const TAG_USAGE_PAGE: u8 = 0x04;

pub const TAG_LOGICAL_MIN: u8 = 0x14;

pub const TAG_LOGICAL_MAX: u8 = 0x24;

pub const TAG_REPORT_SIZE: u8 = 0x74;

pub const TAG_REPORT_ID: u8 = 0x84;

pub const TAG_REPORT_COUNT: u8 = 0x94;

// Local items

pub const TAG_USAGE: u8 = 0x08;

pub const TAG_USAGE_MIN: u8 = 0x18;

pub const TAG_USAGE_MAX: u8 = 0x28;

// Main items

pub const TAG_INPUT: u8 = 0x80;

pub const TAG_OUTPUT: u8 = 0x90;

pub const TAG_FEATURE: u8 = 0xB0;

pub const TAG_COLLECTION: u8 = 0xA0;

pub const TAG_END_COLLECTION: u8 = 0xC0;

// Collection types

pub const COLLECTION_APPLICATION: u32 = 0x01;

pub const COLLECTION_LOGICAL: u32 = 0x02;

/// Usage entry stored during parsing -- either a plain usage ID
/// or a pending min value awaiting a USAGE_MAX to expand the range.
#[derive(Debug, Clone, Copy, PartialEq, Eq, Structural)]
pub enum UsageEntry {
    Single(u32),
    Min(u32),
}

/// Accumulates LED RGB channel offsets during descriptor parsing.
#[derive(Debug, Clone, Copy, PartialEq, Eq, Structural)]
pub struct LedRgbChannelBuilder {
    pub report_id: u8,
    pub report_size: usize,
    pub red_offset: Option<usize>,
    pub blue_offset: Option<usize>,
    pub green_offset: Option<usize>,
    pub intensity_offset: Option<usize>,
    pub channel_size: u32,
    /// The HID report type (Feature, Output, or Input) for this RGB LED.
    pub report_type: ReportType,
    /// LogicalMaximum per color channel (typically 255 for all).
    pub red_logical_max: u32,
    pub green_logical_max: u32,
    pub blue_logical_max: u32,
    /// LogicalMaximum of the Intensity channel (spec recommends 100).
    pub intensity_logical_max: Option<u32>,
}

impl LedRgbChannelBuilder {
    /// A builder for which no channel has been found: 8 bits per channel, levels up to 255.
    pub open spec fn unset() -> LedRgbChannelBuilder {
        LedRgbChannelBuilder {
            report_id: 0,
            report_size: 0,
            red_offset: None,
            blue_offset: None,
            green_offset: None,
            intensity_offset: None,
            channel_size: 8,
            report_type: ReportType::Feature,
            red_logical_max: 255,
            green_logical_max: 255,
            blue_logical_max: 255,
            intensity_logical_max: None,
        }
    }

    /// All mandatory channels (R, G, B) have been found.
    pub open spec fn complete(self) -> bool {
        self.red_offset is Some && self.blue_offset is Some && self.green_offset is Some
    }

    /// True when all mandatory channels (R, G, B) have been found.
    pub fn is_complete(&self) -> (b: bool)
        ensures
            b == self.complete(),
    {
        self.red_offset.is_some() && self.blue_offset.is_some() && self.green_offset.is_some()
    }
}

impl Default for LedRgbChannelBuilder {
    fn default() -> (builder: Self)
        ensures
            builder == LedRgbChannelBuilder::unset(),
    {
        LedRgbChannelBuilder {
            report_id: 0,
            report_size: 0,
            red_offset: None,
            blue_offset: None,
            green_offset: None,
            intensity_offset: None,
            channel_size: 8,
            report_type: ReportType::Feature,
            red_logical_max: 255,
            green_logical_max: 255,
            blue_logical_max: 255,
            intensity_logical_max: None,
        }
    }
}

/// The report that a LampArray collection with this usage describes.
pub open spec fn report_of_usage(usage: u32) -> Option<LampReport> {
    if usage == USAGE_LAMP_ARRAY_ATTRIBUTES_REPORT {
        Some(LampReport::Attributes)
    } else if usage == USAGE_LAMP_ATTR_REQUEST_REPORT {
        Some(LampReport::AttrRequest)
    } else if usage == USAGE_LAMP_ATTR_RESPONSE_REPORT {
        Some(LampReport::AttrResponse)
    } else if usage == USAGE_LAMP_MULTI_UPDATE_REPORT {
        Some(LampReport::MultiUpdate)
    } else if usage == USAGE_LAMP_RANGE_UPDATE_REPORT {
        Some(LampReport::RangeUpdate)
    } else if usage == USAGE_LAMP_ARRAY_CONTROL_REPORT {
        Some(LampReport::Control)
    } else {
        None
    }
}

/// Map from LampArray collection usage to the report that it describes.
pub fn lamp_array_report_name(usage: u32) -> (report: Option<LampReport>)
    ensures
        report == report_of_usage(usage),
{
    match usage {
        USAGE_LAMP_ARRAY_ATTRIBUTES_REPORT => Some(LampReport::Attributes),
        USAGE_LAMP_ATTR_REQUEST_REPORT => Some(LampReport::AttrRequest),
        USAGE_LAMP_ATTR_RESPONSE_REPORT => Some(LampReport::AttrResponse),
        USAGE_LAMP_MULTI_UPDATE_REPORT => Some(LampReport::MultiUpdate),
        USAGE_LAMP_RANGE_UPDATE_REPORT => Some(LampReport::RangeUpdate),
        USAGE_LAMP_ARRAY_CONTROL_REPORT => Some(LampReport::Control),
        _ => None,
    }
}

/// Input, Output and Feature items lay out data.
pub open spec fn data_tag(tag: u8) -> bool {
    tag == TAG_INPUT || tag == TAG_OUTPUT || tag == TAG_FEATURE
}

/// Check if a tag is a main data tag (Input, Output, or Feature).
pub fn is_main_data_tag(tag: u8) -> (b: bool)
    ensures
        b == data_tag(tag),
{
    tag == TAG_INPUT || tag == TAG_OUTPUT || tag == TAG_FEATURE
}

/// The type of the report that a data item belongs to.
pub open spec fn report_type(tag: u8) -> ReportType {
    if tag == TAG_OUTPUT {
        ReportType::Output
    } else if tag == TAG_INPUT {
        ReportType::Input
    } else {
        ReportType::Feature
    }
}

/// The report that the last usage of a report names, if any of the usages names one.
pub open spec fn last_report(usages: Seq<UsageEntry>) -> Option<LampReport>
    decreases usages.len(),
{
    if usages.len() == 0 {
        None
    } else {
        match usages.last() {
            UsageEntry::Single(u) if report_of_usage(u) is Some => report_of_usage(u),
            _ => last_report(usages.drop_last()),
        }
    }
}

/// Where a usage stands last among the usages, if it is there.
pub open spec fn last_use(usages: Seq<UsageEntry>, usage: u32) -> Option<int>
    decreases usages.len(),
{
    if usages.len() == 0 {
        None
    } else if usages.last() == UsageEntry::Single(usage) {
        Some(usages.len() - 1)
    } else {
        last_use(usages.drop_last(), usage)
    }
}

/// The usages after a Usage Maximum item: a pending minimum becomes all usages from it to `max`.
pub open spec fn expanded(usages: Seq<UsageEntry>, max: u32) -> Seq<UsageEntry> {
    if usages.len() > 0 && usages.last() is Min {
        let min = usages.last()->Min_0;
        usages.drop_last() + Seq::new(
            if min <= max {
                (max - min + 1) as nat
            } else {
                0
            },
            |i: int| UsageEntry::Single((min + i) as u32),
        )
    } else {
        usages
    }
}

/// How many bits of a report are laid out.
pub open spec fn bits_of(bits: Map<u8, u32>, report_id: u8) -> u32 {
    if bits.contains_key(report_id) {
        bits[report_id]
    } else {
        0
    }
}

/// How many bytes hold so many bits.
pub open spec fn bytes_for(bits: u32) -> nat {
    ((bits + 7) / 8) as nat
}

/// The byte in which the field number `i` of a data item starts, after `before` bits of the report.
pub open spec fn field_byte(before: u32, i: int, field_size: u32) -> usize {
    ((before + i * field_size) % 0x1_0000_0000 / 8) as usize
}

/// A LogicalMaximum as the largest level of a channel: none below 0.
pub open spec fn top_level(logical_max: i32) -> u32 {
    if logical_max < 0 {
        0
    } else {
        logical_max as u32
    }
}

/// A builder after a data item with the given usages: every channel among them starts where the
/// last field with its usage does.
pub open spec fn with_channels(
    builder: LedRgbChannelBuilder,
    usages: Seq<UsageEntry>,
    before: u32,
    field_size: u32,
    logical_max: i32,
) -> LedRgbChannelBuilder {
    let red = last_use(usages, USAGE_RED_LED_CHANNEL);
    let blue = last_use(usages, USAGE_BLUE_LED_CHANNEL);
    let green = last_use(usages, USAGE_GREEN_LED_CHANNEL);
    let intensity = last_use(usages, USAGE_LED_INTENSITY);
    let top = top_level(logical_max);
    LedRgbChannelBuilder {
        red_offset: match red {
            Some(i) => Some(field_byte(before, i, field_size)),
            None => builder.red_offset,
        },
        channel_size: if red is Some {
            field_size
        } else {
            builder.channel_size
        },
        red_logical_max: if red is Some {
            top
        } else {
            builder.red_logical_max
        },
        blue_offset: match blue {
            Some(i) => Some(field_byte(before, i, field_size)),
            None => builder.blue_offset,
        },
        blue_logical_max: if blue is Some {
            top
        } else {
            builder.blue_logical_max
        },
        green_offset: match green {
            Some(i) => Some(field_byte(before, i, field_size)),
            None => builder.green_offset,
        },
        green_logical_max: if green is Some {
            top
        } else {
            builder.green_logical_max
        },
        intensity_offset: match intensity {
            Some(i) => Some(field_byte(before, i, field_size)),
            None => builder.intensity_offset,
        },
        intensity_logical_max: if intensity is Some {
            Some(top)
        } else {
            builder.intensity_logical_max
        },
        ..builder
    }
}

impl LampArrayReports {
    /// No report.
    pub open spec fn spec_none() -> LampArrayReports {
        LampArrayReports {
            attributes: None,
            attr_request: None,
            attr_response: None,
            multi_update: None,
            range_update: None,
            control: None,
        }
    }

    /// The reports with one of them set.
    pub open spec fn with(self, report: LampReport, info: ReportInfo) -> LampArrayReports {
        match report {
            LampReport::Attributes => LampArrayReports { attributes: Some(info), ..self },
            LampReport::AttrRequest => LampArrayReports { attr_request: Some(info), ..self },
            LampReport::AttrResponse => LampArrayReports { attr_response: Some(info), ..self },
            LampReport::MultiUpdate => LampArrayReports { multi_update: Some(info), ..self },
            LampReport::RangeUpdate => LampArrayReports { range_update: Some(info), ..self },
            LampReport::Control => LampArrayReports { control: Some(info), ..self },
        }
    }

    /// Set one of the reports.
    pub fn set(&mut self, report: LampReport, info: ReportInfo)
        ensures
            *final(self) == old(self).with(report, info),
    {
        match report {
            LampReport::Attributes => self.attributes = Some(info),
            LampReport::AttrRequest => self.attr_request = Some(info),
            LampReport::AttrResponse => self.attr_response = Some(info),
            LampReport::MultiUpdate => self.multi_update = Some(info),
            LampReport::RangeUpdate => self.range_update = Some(info),
            LampReport::Control => self.control = Some(info),
        }
    }
}

/// What has been read from a descriptor.
#[verifier::ext_equal]
pub struct DescriptorState {
    // Global items (persist across Main items)
    pub usage_page: u32,
    pub report_id: u8,
    pub report_size: u32,
    pub report_count: u32,
    pub logical_min: i32,
    pub logical_max: i32,
    /// Local items (reset after each Main item).
    pub usages: Seq<UsageEntry>,
    /// The LampArray reports found, with sizes still to be filled in.
    pub lamp_reports: LampArrayReports,
    /// The channels found, by report ID.
    pub channels: Map<u8, LedRgbChannelBuilder>,
    /// The data bits laid out, by report ID.
    pub bits: Map<u8, u32>,
    pub depth: u32,
    /// The LampArray report whose collection is open.
    pub current: Option<LampReport>,
    pub in_rgb_led: bool,
    pub in_lamp_array: bool,
}

impl DescriptorState {
    /// Nothing has been read.
    pub open spec fn initial() -> DescriptorState {
        DescriptorState {
            usage_page: 0,
            report_id: 0,
            report_size: 0,
            report_count: 0,
            logical_min: 0,
            logical_max: 0,
            usages: Seq::empty(),
            lamp_reports: LampArrayReports::spec_none(),
            channels: Map::empty(),
            bits: Map::empty(),
            depth: 0,
            current: None,
            in_rgb_led: false,
            in_lamp_array: false,
        }
    }

    /// A Global item sets one value; the report ID is the low byte of its payload.
    pub open spec fn global_item(self, tag: u8, payload: Seq<u8>) -> DescriptorState {
        let value = item::unsigned(payload);
        if tag == TAG_USAGE_PAGE {
            DescriptorState { usage_page: value, ..self }
        } else if tag == TAG_LOGICAL_MIN {
            DescriptorState { logical_min: item::signed(payload), ..self }
        } else if tag == TAG_LOGICAL_MAX {
            DescriptorState { logical_max: item::signed(payload), ..self }
        } else if tag == TAG_REPORT_ID {
            DescriptorState { report_id: (value % 0x100) as u8, ..self }
        } else if tag == TAG_REPORT_SIZE {
            DescriptorState { report_size: value, ..self }
        } else if tag == TAG_REPORT_COUNT {
            DescriptorState { report_count: value, ..self }
        } else {
            self
        }
    }

    /// A Local item adds a usage, starts a range of usages, or ends one.
    pub open spec fn local_item(self, tag: u8, value: u32) -> DescriptorState {
        if tag == TAG_USAGE {
            DescriptorState { usages: self.usages.push(UsageEntry::Single(value)), ..self }
        } else if tag == TAG_USAGE_MIN {
            DescriptorState { usages: self.usages.push(UsageEntry::Min(value)), ..self }
        } else if tag == TAG_USAGE_MAX {
            DescriptorState { usages: expanded(self.usages, value), ..self }
        } else {
            self
        }
    }

    /// Whether a LampArray application is open once a collection opens here.
    pub open spec fn opens_lamp_array(self, collection_type: u32) -> bool {
        self.in_lamp_array || (self.usage_page == USAGE_PAGE_LIGHTING && collection_type
            == COLLECTION_APPLICATION && self.usages.contains(UsageEntry::Single(USAGE_LAMP_ARRAY)))
    }

    /// Whether a collection that opens here is an RGB LED: per Section 11.7 a Logical collection.
    pub open spec fn opens_rgb_led(self, collection_type: u32) -> bool {
        self.usage_page == USAGE_PAGE_LED && collection_type == COLLECTION_LOGICAL
            && self.usages.contains(UsageEntry::Single(USAGE_RGB_LED))
    }

    /// A collection opens. Report collections count only inside a LampArray application.
    pub open spec fn collection(self, collection_type: u32) -> DescriptorState {
        let in_lamp_array = self.opens_lamp_array(collection_type);
        let rgb_led = self.opens_rgb_led(collection_type);
        DescriptorState {
            depth: ((self.depth + 1) % 0x1_0000_0000) as u32,
            in_lamp_array,
            current: if self.usage_page == USAGE_PAGE_LIGHTING && in_lamp_array && last_report(
                self.usages,
            ) is Some {
                last_report(self.usages)
            } else {
                self.current
            },
            in_rgb_led: self.in_rgb_led || rgb_led,
            channels: if rgb_led && !self.channels.contains_key(self.report_id) {
                self.channels.insert(self.report_id, LedRgbChannelBuilder::unset())
            } else {
                self.channels
            },
            usages: Seq::empty(),
            ..self
        }
    }

    /// A collection closes. Back at depth 1 the report and the RGB LED have ended, at depth 0 the
    /// LampArray application too.
    pub open spec fn end_collection(self) -> DescriptorState {
        let depth: u32 = if self.depth == 0 {
            0
        } else {
            (self.depth - 1) as u32
        };
        DescriptorState {
            depth,
            current: if depth <= 1 {
                None
            } else {
                self.current
            },
            in_rgb_led: depth > 1 && self.in_rgb_led,
            in_lamp_array: depth > 0 && self.in_lamp_array,
            usages: Seq::empty(),
            ..self
        }
    }

    /// How many bits the next data item lays out.
    pub open spec fn item_bits(self) -> int {
        self.report_size * self.report_count
    }

    /// The channels of the current report, as found so far.
    pub open spec fn builder(self) -> LedRgbChannelBuilder {
        if self.channels.contains_key(self.report_id) {
            self.channels[self.report_id]
        } else {
            LedRgbChannelBuilder::unset()
        }
    }

    /// A data item lays out bits of the current report. On the Lighting Page it makes the open
    /// report known, unless an earlier item has; on the LED Page, inside an RGB LED, it says where
    /// the channels are.
    pub open spec fn data_item(self, tag: u8) -> DescriptorState {
        let before = bits_of(self.bits, self.report_id);
        DescriptorState {
            bits: self.bits.insert(
                self.report_id,
                ((before + self.item_bits()) % 0x1_0000_0000) as u32,
            ),
            lamp_reports: match self.current {
                Some(report) if self.usage_page == USAGE_PAGE_LIGHTING
                    && self.lamp_reports.spec_get(report) is None => self.lamp_reports.with(
                    report,
                    ReportInfo { report_id: self.report_id, size: 0 },
                ),
                _ => self.lamp_reports,
            },
            channels: if self.usage_page == USAGE_PAGE_LED && self.in_rgb_led {
                self.channels.insert(
                    self.report_id,
                    with_channels(
                        LedRgbChannelBuilder { report_type: report_type(tag), ..self.builder() },
                        self.usages,
                        before,
                        self.report_size,
                        self.logical_max,
                    ),
                )
            } else {
                self.channels
            },
            usages: Seq::empty(),
            ..self
        }
    }

    /// A Main item.
    pub open spec fn main_item(self, tag: u8, value: u32) -> DescriptorState {
        if tag == TAG_COLLECTION {
            self.collection(value)
        } else if tag == TAG_END_COLLECTION {
            self.end_collection()
        } else if data_tag(tag) {
            self.data_item(tag)
        } else {
            self
        }
    }

    /// The effect of one item. Reserved items have none.
    pub open spec fn step(self, it: Item) -> DescriptorState {
        if it.item_type == TYPE_GLOBAL {
            self.global_item(it.tag, it.payload)
        } else if it.item_type == TYPE_LOCAL {
            self.local_item(it.tag, item::unsigned(it.payload))
        } else if it.item_type == TYPE_MAIN {
            self.main_item(it.tag, item::unsigned(it.payload))
        } else {
            self
        }
    }

    /// The effect of a sequence of items, first item first.
    pub open spec fn run(self, items: Seq<Item>) -> DescriptorState
        decreases items.len(),
    {
        if items.len() == 0 {
            self
        } else {
            self.step(items[0]).run(items.drop_first())
        }
    }

    /// A report with its size in bytes filled in.
    pub open spec fn sized(self, report: Option<ReportInfo>) -> Option<ReportInfo> {
        match report {
            Some(info) => Some(
                ReportInfo {
                    report_id: info.report_id,
                    size: bytes_for(bits_of(self.bits, info.report_id)) as usize,
                },
            ),
            None => None,
        }
    }

    /// The LampArray reports with their sizes.
    pub open spec fn sized_reports(self) -> LampArrayReports {
        LampArrayReports {
            attributes: self.sized(self.lamp_reports.attributes),
            attr_request: self.sized(self.lamp_reports.attr_request),
            attr_response: self.sized(self.lamp_reports.attr_response),
            multi_update: self.sized(self.lamp_reports.multi_update),
            range_update: self.sized(self.lamp_reports.range_update),
            control: self.sized(self.lamp_reports.control),
        }
    }

    /// The builder of a report with its ID and its size filled in.
    pub open spec fn sized_builder(self, report_id: u8) -> LedRgbChannelBuilder {
        LedRgbChannelBuilder {
            report_id,
            report_size: bytes_for(bits_of(self.bits, report_id)) as usize,
            ..self.channels[report_id]
        }
    }

    /// The complete builders of the reports with IDs below `n`, in ascending order.
    pub open spec fn builders_below(self, n: nat) -> Seq<LedRgbChannelBuilder>
        decreases n,
    {
        if n == 0 {
            Seq::empty()
        } else {
            let id = (n - 1) as u8;
            let rest = self.builders_below((n - 1) as nat);
            if self.channels.contains_key(id) && self.channels[id].complete() {
                rest.push(self.sized_builder(id))
            } else {
                rest
            }
        }
    }

    /// All complete builders.
    pub open spec fn builders(self) -> Seq<LedRgbChannelBuilder> {
        self.builders_below(0x100)
    }
}

/// What is known after all items of a descriptor.
pub open spec fn parsed(desc: Seq<u8>) -> DescriptorState {
    DescriptorState::initial().run(item::items_from(desc, 0))
}

} // verus!
