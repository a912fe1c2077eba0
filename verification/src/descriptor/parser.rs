//! The parser of report descriptors.

use std::collections::HashMap;

use vstd::prelude::*;

use super::item::{
    parse_item, payload_value, payload_value_signed, TYPE_GLOBAL, TYPE_LOCAL, TYPE_MAIN,
};
use super::state::{
    is_main_data_tag, lamp_array_report_name, DescriptorState, LedRgbChannelBuilder, UsageEntry,
    COLLECTION_APPLICATION, COLLECTION_LOGICAL, TAG_COLLECTION, TAG_END_COLLECTION, TAG_INPUT,
    TAG_LOGICAL_MAX, TAG_LOGICAL_MIN, TAG_OUTPUT, TAG_REPORT_COUNT, TAG_REPORT_ID,
    TAG_REPORT_SIZE, TAG_USAGE, TAG_USAGE_MAX, TAG_USAGE_MIN, TAG_USAGE_PAGE,
    USAGE_BLUE_LED_CHANNEL, USAGE_GREEN_LED_CHANNEL, USAGE_LAMP_ARRAY, USAGE_LED_INTENSITY,
    USAGE_PAGE_LED, USAGE_PAGE_LIGHTING, USAGE_RED_LED_CHANNEL, USAGE_RGB_LED,
};
use super::{item, state, LampArrayReports, LampReport, ReportInfo, ReportType};

verus! {

broadcast use vstd::std_specs::hash::group_hash_axioms;

/// Mutable state for the HID descriptor parser.
struct ParserState {
    usage_page: u32,
    report_id: u8,
    report_size: u32,
    report_count: u32,
    logical_min: i32,
    logical_max: i32,
    usages: Vec<UsageEntry>,
    lamp_array_reports: LampArrayReports,
    led_rgb_channels: HashMap<u8, LedRgbChannelBuilder>,
    report_data_bits: HashMap<u8, u32>,
    collection_depth: u32,
    current_lighting_report: Option<LampReport>,
    in_rgb_led_collection: bool,
    in_lamp_array_app: bool,
}

impl View for ParserState {
    type V = DescriptorState;

    closed spec fn view(&self) -> DescriptorState {
        DescriptorState {
            usage_page: self.usage_page,
            report_id: self.report_id,
            report_size: self.report_size,
            report_count: self.report_count,
            logical_min: self.logical_min,
            logical_max: self.logical_max,
            usages: self.usages@,
            lamp_reports: self.lamp_array_reports,
            channels: self.led_rgb_channels@,
            bits: self.report_data_bits@,
            depth: self.collection_depth,
            current: self.current_lighting_report,
            in_rgb_led: self.in_rgb_led_collection,
            in_lamp_array: self.in_lamp_array_app,
        }
    }
}

/// Whether a usage is among the usages.
fn has_usage(usages: &Vec<UsageEntry>, usage: u32) -> (b: bool)
    ensures
        b == usages@.contains(UsageEntry::Single(usage)),
{
    let mut i: usize = 0;
    while i < usages.len()
        invariant
            i <= usages@.len(),
            forall|j: int| 0 <= j < i ==> usages@[j] != UsageEntry::Single(usage),
        decreases usages@.len() - i,
    {
        if usages[i] == UsageEntry::Single(usage) {
            return true;
        }
        i = i + 1;
    }
    false
}

/// The report that the last usage of a report names.
fn find_last_report(usages: &Vec<UsageEntry>) -> (report: Option<LampReport>)
    ensures
        report == state::last_report(usages@),
{
    let mut found: Option<LampReport> = None;
    let mut i: usize = 0;
    while i < usages.len()
        invariant
            i <= usages@.len(),
            found == state::last_report(usages@.take(i as int)),
        decreases usages@.len() - i,
    {
        assert(usages@.take(i + 1).drop_last() =~= usages@.take(i as int));
        if let UsageEntry::Single(usage) = usages[i] {
            if let Some(report) = lamp_array_report_name(usage) {
                found = Some(report);
            }
        }
        i = i + 1;
    }
    assert(usages@.take(i as int) =~= usages@);
    found
}

/// The sum of the bits before a field and those of the fields that precede it, in bytes.
fn field_offset(before: u32, i: usize, field_size: u32) -> (offset: usize)
    ensures
        offset == state::field_byte(before, i as int, field_size),
{
    assert(0 <= i * field_size <= 0xFFFF_FFFF_FFFF_FFFF * 0xFFFF_FFFF) by (nonlinear_arith)
        requires
            0 <= i <= 0xFFFF_FFFF_FFFF_FFFF,
            0 <= field_size <= 0xFFFF_FFFF,
    ;
    let bit: u128 = (before as u128 + i as u128 * field_size as u128) % 0x1_0000_0000;
    (bit / 8) as usize
}

/// How many bytes hold so many bits.
fn byte_count(bits: u32) -> (n: usize)
    ensures
        n == state::bytes_for(bits),
{
    ((bits as u64 + 7) / 8) as usize
}

/// The type of the report that a data item belongs to.
pub fn report_type_of(tag: u8) -> (t: ReportType)
    ensures
        t == state::report_type(tag),
{
    match tag {
        TAG_OUTPUT => ReportType::Output,
        TAG_INPUT => ReportType::Input,
        _ => ReportType::Feature,
    }
}

/// Record where the channels among the usages of a data item are.
pub fn place_channels(
    builder: LedRgbChannelBuilder,
    usages: &Vec<UsageEntry>,
    before: u32,
    field_size: u32,
    logical_max: i32,
) -> (placed: LedRgbChannelBuilder)
    ensures
        placed == state::with_channels(builder, usages@, before, field_size, logical_max),
{
    let lmax: u32 = if logical_max < 0 {
        0
    } else {
        logical_max as u32
    };
    let mut placed: LedRgbChannelBuilder = builder;
    let mut i: usize = 0;
    while i < usages.len()
        invariant
            i <= usages@.len(),
            lmax == state::top_level(logical_max),
            placed == state::with_channels(
                builder,
                usages@.take(i as int),
                before,
                field_size,
                logical_max,
            ),
        decreases usages@.len() - i,
    {
        assert(usages@.take(i + 1).drop_last() =~= usages@.take(i as int));
        assert(usages@.take(i + 1).last() == usages@[i as int]);
        if let UsageEntry::Single(usage) = usages[i] {
            let byte_off: usize = field_offset(before, i, field_size);
            match usage {
                USAGE_RED_LED_CHANNEL => {
                    placed.red_offset = Some(byte_off);
                    placed.channel_size = field_size;
                    placed.red_logical_max = lmax;
                },
                USAGE_BLUE_LED_CHANNEL => {
                    placed.blue_offset = Some(byte_off);
                    placed.blue_logical_max = lmax;
                },
                USAGE_GREEN_LED_CHANNEL => {
                    placed.green_offset = Some(byte_off);
                    placed.green_logical_max = lmax;
                },
                USAGE_LED_INTENSITY => {
                    placed.intensity_offset = Some(byte_off);
                    placed.intensity_logical_max = Some(lmax);
                },
                _ => {},
            }
        }
        i = i + 1;
    }
    assert(usages@.take(i as int) =~= usages@);
    placed
}

impl ParserState {
    fn new() -> (state: Self)
        ensures
            state@ == DescriptorState::initial(),
    {
        ParserState {
            usage_page: 0,
            report_id: 0,
            report_size: 0,
            report_count: 0,
            logical_min: 0,
            logical_max: 0,
            usages: Vec::new(),
            lamp_array_reports: LampArrayReports {
                attributes: None,
                attr_request: None,
                attr_response: None,
                multi_update: None,
                range_update: None,
                control: None,
            },
            led_rgb_channels: HashMap::new(),
            report_data_bits: HashMap::new(),
            collection_depth: 0,
            current_lighting_report: None,
            in_rgb_led_collection: false,
            in_lamp_array_app: false,
        }
    }

    fn handle_global(&mut self, tag: u8, val: u32, payload: &[u8])
        requires
            val == item::unsigned(payload@),
        ensures
            final(self)@ == old(self)@.global_item(tag, payload@),
    {
        match tag {
            TAG_USAGE_PAGE => self.usage_page = val,
            TAG_LOGICAL_MIN => self.logical_min = payload_value_signed(payload),
            TAG_LOGICAL_MAX => self.logical_max = payload_value_signed(payload),
            TAG_REPORT_ID => self.report_id = (val % 0x100) as u8,
            TAG_REPORT_SIZE => self.report_size = val,
            TAG_REPORT_COUNT => self.report_count = val,
            _ => {},
        }
    }

    fn handle_local(&mut self, tag: u8, val: u32)
        ensures
            final(self)@ == old(self)@.local_item(tag, val),
    {
        match tag {
            TAG_USAGE => {
                self.usages.push(UsageEntry::Single(val));
            },
            TAG_USAGE_MIN => {
                self.usages.push(UsageEntry::Min(val));
            },
            TAG_USAGE_MAX => {
                self.expand_usages(val);
            },
            _ => {},
        }
    }

    /// Expand usage range from the last USAGE_MIN.
    fn expand_usages(&mut self, max: u32)
        ensures
            final(self)@ == (DescriptorState {
                usages: state::expanded(old(self)@.usages, max),
                ..old(self)@
            }),
    {
        let n: usize = self.usages.len();
        if n > 0 {
            if let UsageEntry::Min(min) = self.usages[n - 1] {
                self.usages.pop();
                let ghost kept = self.usages@;
                let mut next: u64 = min as u64;
                while next <= max as u64
                    invariant
                        min <= next,
                        next <= max + 1 || next == min,
                        self@ == (DescriptorState { usages: self.usages@, ..old(self)@ }),
                        self.usages@ == kept + Seq::new(
                            (next - min) as nat,
                            |i: int| UsageEntry::Single((min + i) as u32),
                        ),
                    decreases max + 1 - next,
                {
                    self.usages.push(UsageEntry::Single(next as u32));
                    next = next + 1;
                }
                assert(self.usages@ == state::expanded(old(self)@.usages, max));
            }
        }
    }

    fn handle_main(&mut self, tag: u8, val: u32)
        ensures
            final(self)@ == old(self)@.main_item(tag, val),
    {
        match tag {
            TAG_COLLECTION => self.on_collection(val),
            TAG_END_COLLECTION => self.on_end_collection(),
            _ => {
                if is_main_data_tag(tag) {
                    self.on_data_item(tag)
                }
            },
        }
    }

    fn on_collection(&mut self, collection_type: u32)
        ensures
            final(self)@ == old(self)@.collection(collection_type),
    {
        self.collection_depth = if self.collection_depth == u32::MAX {
            0
        } else {
            self.collection_depth + 1
        };

        // LampArray Application collection (Usage Page 0x59, Usage 0x01)
        if self.usage_page == USAGE_PAGE_LIGHTING && collection_type == COLLECTION_APPLICATION
            && has_usage(&self.usages, USAGE_LAMP_ARRAY) {
            self.in_lamp_array_app = true;
        }
        // LampArray sub-report collections: only match inside a LampArray app collection

        if self.usage_page == USAGE_PAGE_LIGHTING && self.in_lamp_array_app {
            if let Some(report) = find_last_report(&self.usages) {
                self.current_lighting_report = Some(report);
            }
        }
        // RGB LED collection: per Section 11.7, RGB LED is a Logical collection (CL)

        if self.usage_page == USAGE_PAGE_LED && collection_type == COLLECTION_LOGICAL && has_usage(
            &self.usages,
            USAGE_RGB_LED,
        ) {
            self.in_rgb_led_collection = true;
            if !self.led_rgb_channels.contains_key(&self.report_id) {
                self.led_rgb_channels.insert(self.report_id, LedRgbChannelBuilder::default());
            }
        }
        self.usages.clear();
    }

    fn on_end_collection(&mut self)
        ensures
            final(self)@ == old(self)@.end_collection(),
    {
        if self.collection_depth > 0 {
            self.collection_depth = self.collection_depth - 1;
        }
        if self.collection_depth <= 1 {
            self.current_lighting_report = None;
            self.in_rgb_led_collection = false;
        }
        if self.collection_depth == 0 {
            self.in_lamp_array_app = false;
        }
        self.usages.clear();
    }

    /// How many bits of a report are laid out.
    fn data_bits(&self, report_id: u8) -> (bits: u32)
        ensures
            bits == state::bits_of(self@.bits, report_id),
    {
        match self.report_data_bits.get(&report_id) {
            Some(bits) => *bits,
            None => 0,
        }
    }

    fn on_data_item(&mut self, tag: u8)
        ensures
            final(self)@ == old(self)@.data_item(tag),
    {
        let rid: u8 = self.report_id;
        assert(0 <= self.report_size * self.report_count <= 0xFFFF_FFFF * 0xFFFF_FFFF)
            by (nonlinear_arith)
            requires
                0 <= self.report_size <= 0xFFFF_FFFF,
                0 <= self.report_count <= 0xFFFF_FFFF,
        ;
        let total_bits: u64 = self.report_size as u64 * self.report_count as u64;

        // Capture absolute bit offset before this item for channel positioning
        let bit_offset_before: u32 = self.data_bits(rid);
        let bits_after: u128 = (bit_offset_before as u128 + total_bits as u128) % 0x1_0000_0000;
        self.report_data_bits.insert(rid, bits_after as u32);

        // Lighting Page (0x59): record report info
        if self.usage_page == USAGE_PAGE_LIGHTING {
            if let Some(report) = self.current_lighting_report {
                if self.lamp_array_reports.get(report).is_none() {
                    self.lamp_array_reports.set(report, ReportInfo { report_id: rid, size: 0 });
                }
            }
        }
        // LED Page (0x08): record channel byte offsets (absolute within report)

        if self.usage_page == USAGE_PAGE_LED && self.in_rgb_led_collection {
            let found: LedRgbChannelBuilder = match self.led_rgb_channels.get(&rid) {
                Some(builder) => *builder,
                None => LedRgbChannelBuilder::default(),
            };
            let typed = LedRgbChannelBuilder { report_type: report_type_of(tag), ..found };
            let builder = place_channels(
                typed,
                &self.usages,
                bit_offset_before,
                self.report_size,
                self.logical_max,
            );
            self.led_rgb_channels.insert(rid, builder);
        }
        self.usages.clear();
    }

    /// A report with its size in bytes filled in.
    fn fill_size(&self, report: Option<ReportInfo>) -> (sized: Option<ReportInfo>)
        ensures
            sized == self@.sized(report),
    {
        match report {
            Some(info) => Some(
                ReportInfo {
                    report_id: info.report_id,
                    size: byte_count(self.data_bits(info.report_id)),
                },
            ),
            None => None,
        }
    }

    fn finalize(self) -> (r: (LampArrayReports, Vec<LedRgbChannelBuilder>))
        ensures
            r.0 == self@.sized_reports(),
            r.1@ == self@.builders(),
    {
        // Fill in byte sizes for LampArray reports
        let found: LampArrayReports = self.lamp_array_reports;
        let reports = LampArrayReports {
            attributes: self.fill_size(found.attributes),
            attr_request: self.fill_size(found.attr_request),
            attr_response: self.fill_size(found.attr_response),
            multi_update: self.fill_size(found.multi_update),
            range_update: self.fill_size(found.range_update),
            control: self.fill_size(found.control),
        };

        // Collect complete LED RGB channel builders with computed sizes
        let mut complete: Vec<LedRgbChannelBuilder> = Vec::new();
        let mut id: u16 = 0;
        while id < 0x100
            invariant
                id <= 0x100,
                complete@ == self@.builders_below(id as nat),
            decreases 0x100 - id,
        {
            let rid: u8 = id as u8;
            if let Some(builder) = self.led_rgb_channels.get(&rid) {
                if builder.is_complete() {
                    complete.push(
                        LedRgbChannelBuilder {
                            report_id: rid,
                            report_size: byte_count(self.data_bits(rid)),
                            ..*builder
                        },
                    );
                }
            }
            id = id + 1;
        }
        (reports, complete)
    }
}

/// Parse a binary HID report descriptor.
///
/// Returns:
///   - the LampArray reports of the Lighting Page (0x59)
///   - one `LedRgbChannelBuilder` for each complete RGB LED of the LED Page (0x08), in ascending
///     order of report IDs
pub fn parse_descriptor(desc: &[u8]) -> (r: (LampArrayReports, Vec<LedRgbChannelBuilder>))
    ensures
        r.0 == state::parsed(desc@).sized_reports(),
        r.1@ == state::parsed(desc@).builders(),
{
    let mut state = ParserState::new();
    let mut offset: usize = 0;
    let mut more: bool = true;
    let n: usize = desc.len();
    while more
        invariant
            offset <= n,
            n == desc@.len(),
            more ==> state@.run(item::items_from(desc@, offset as int)) == state::parsed(desc@),
            !more ==> state@ == state::parsed(desc@),
        decreases
                desc@.len() - offset,
                if more {
                    1int
                } else {
                    0int
                },
    {
        match parse_item(desc, offset) {
            None => {
                more = false;
            },
            Some((tag, item_type, payload, item_size)) => {
                let ghost before = state@;
                let val: u32 = payload_value(payload);
                match item_type {
                    TYPE_GLOBAL => state.handle_global(tag, val, payload),
                    TYPE_LOCAL => state.handle_local(tag, val),
                    TYPE_MAIN => state.handle_main(tag, val),
                    _ => {},
                }
                proof {
                    let all = item::items_from(desc@, offset as int);
                    let rest = item::items_from(desc@, offset + item_size);
                    assert(all.drop_first() =~= rest);
                    assert(state@ == before.step(all[0]));
                }
                offset = offset + item_size;
            },
        }
    }
    state.finalize()
}

} // verus!
