//! What holds of every descriptor.

use vstd::prelude::*;

use super::item::{Item, TYPE_GLOBAL, TYPE_LOCAL, TYPE_MAIN};
use super::state::{
    DescriptorState, UsageEntry, TAG_COLLECTION, TAG_END_COLLECTION, TAG_LOGICAL_MAX,
    TAG_LOGICAL_MIN, TAG_REPORT_COUNT, TAG_REPORT_ID, TAG_REPORT_SIZE, TAG_USAGE, TAG_USAGE_MAX,
    TAG_USAGE_MIN, TAG_USAGE_PAGE, USAGE_BLUE_LED_CHANNEL, USAGE_GREEN_LED_CHANNEL,
    USAGE_LED_INTENSITY, USAGE_PAGE_LED, USAGE_PAGE_LIGHTING, USAGE_RED_LED_CHANNEL,
};
use super::{item, state, LampReport};

verus! {

/// An item that lays out data fields.
pub open spec fn lays_out(it: Item) -> bool {
    it.item_type == TYPE_MAIN && state::data_tag(it.tag)
}

/// An item that means something to the parser.
pub open spec fn known(it: Item) -> bool {
    if it.item_type == TYPE_GLOBAL {
        it.tag == TAG_USAGE_PAGE || it.tag == TAG_LOGICAL_MIN || it.tag == TAG_LOGICAL_MAX || it.tag
            == TAG_REPORT_SIZE || it.tag == TAG_REPORT_ID || it.tag == TAG_REPORT_COUNT
    } else if it.item_type == TYPE_LOCAL {
        it.tag == TAG_USAGE || it.tag == TAG_USAGE_MIN || it.tag == TAG_USAGE_MAX
    } else {
        it.item_type == TYPE_MAIN && (it.tag == TAG_COLLECTION || it.tag == TAG_END_COLLECTION
            || state::data_tag(it.tag))
    }
}

/// The effect of items is that of the first of them, followed by that of the others.
pub proof fn run_append(s: DescriptorState, a: Seq<Item>, b: Seq<Item>)
    ensures
        s.run(a + b) == s.run(a).run(b),
    decreases a.len(),
{
    if a.len() == 0 {
        assert(a + b =~= b);
    } else {
        assert((a + b)[0] == a[0]);
        assert((a + b).drop_first() =~= a.drop_first() + b);
        run_append(s.step(a[0]), a.drop_first(), b);
    }
}

/// A descriptor appended to a whole one goes on from what that one said.
pub proof fn descriptor_continues(a: Seq<u8>, b: Seq<u8>)
    requires
        item::whole(a),
    ensures
        state::parsed(a + b) == state::parsed(a).run(item::items_from(b, 0)),
{
    item::items_append(a, b);
    run_append(DescriptorState::initial(), item::items_from(a, 0), item::items_from(b, 0));
}

/// An incomplete item at the end of a descriptor says nothing.
pub proof fn incomplete_item_says_nothing(a: Seq<u8>, tail: Seq<u8>)
    requires
        item::whole(a),
        item::item_at(tail, 0) is None,
    ensures
        state::parsed(a + tail) == state::parsed(a),
{
    item::cut_off_tail_is_ignored(a, tail);
}

/// Unknown items, and among them reserved and long ones, change nothing.
pub proof fn unknown_items_change_nothing(s: DescriptorState, it: Item)
    requires
        !known(it),
    ensures
        s.step(it) == s,
{
}

/// The values of Global items hold until other Global items change them.
pub proof fn globals_persist(s: DescriptorState, it: Item)
    requires
        it.item_type != TYPE_GLOBAL,
    ensures
        s.step(it).usage_page == s.usage_page,
        s.step(it).report_id == s.report_id,
        s.step(it).report_size == s.report_size,
        s.step(it).report_count == s.report_count,
        s.step(it).logical_min == s.logical_min,
        s.step(it).logical_max == s.logical_max,
{
}

/// Usages hold for one Main item: after it none are left.
pub proof fn usages_are_local(s: DescriptorState, it: Item)
    requires
        it.item_type == TYPE_MAIN,
        known(it),
    ensures
        s.step(it).usages == Seq::<UsageEntry>::empty(),
{
}

/// How many bits the items lay out for one report.
pub open spec fn laid_out(s: DescriptorState, items: Seq<Item>, report_id: u8) -> int
    decreases items.len(),
{
    if items.len() == 0 {
        0
    } else {
        (if lays_out(items[0]) && s.report_id == report_id {
            s.item_bits()
        } else {
            0
        }) + laid_out(s.step(items[0]), items.drop_first(), report_id)
    }
}

/// The bits counted for a report are those that the data items lay out for it, modulo 2^32: the
/// sum, over its data items, of field size times field count.
pub proof fn bits_are_counted(s: DescriptorState, items: Seq<Item>, report_id: u8)
    ensures
        state::bits_of(s.run(items).bits, report_id) == (state::bits_of(s.bits, report_id)
            + laid_out(s, items, report_id)) % 0x1_0000_0000,
    decreases items.len(),
{
    if items.len() > 0 {
        let next = s.step(items[0]);
        bits_are_counted(next, items.drop_first(), report_id);
        if lays_out(items[0]) && s.report_id == report_id {
            let before = state::bits_of(s.bits, report_id) as int;
            let rest = laid_out(next, items.drop_first(), report_id);
            assert(((before + s.item_bits()) % 0x1_0000_0000 + rest) % 0x1_0000_0000 == (before
                + s.item_bits() + rest) % 0x1_0000_0000);
        }
    }
}

/// A report is as many bytes long as hold the bits that the descriptor lays out for it, as long as
/// these are fewer than 2^32.
pub proof fn sizes_are_exact(desc: Seq<u8>, report: LampReport)
    requires
        state::parsed(desc).lamp_reports.spec_get(report) matches Some(info) && laid_out(
            DescriptorState::initial(),
            item::items_from(desc, 0),
            info.report_id,
        ) < 0x1_0000_0000,
    ensures
        state::parsed(desc).sized_reports().spec_get(report) matches Some(info) && info.report_id
            == state::parsed(desc).lamp_reports.spec_get(report)->0.report_id && info.size == (
        laid_out(DescriptorState::initial(), item::items_from(desc, 0), info.report_id) + 7) / 8,
{
    let items = item::items_from(desc, 0);
    let id = state::parsed(desc).lamp_reports.spec_get(report)->0.report_id;
    bits_are_counted(DescriptorState::initial(), items, id);
    laid_out_is_not_negative(DescriptorState::initial(), items, id);
}

proof fn laid_out_is_not_negative(s: DescriptorState, items: Seq<Item>, report_id: u8)
    ensures
        laid_out(s, items, report_id) >= 0,
    decreases items.len(),
{
    if items.len() > 0 {
        assert(s.report_size * s.report_count >= 0) by (nonlinear_arith)
            requires
                s.report_size >= 0,
                s.report_count >= 0,
        ;
        laid_out_is_not_negative(s.step(items[0]), items.drop_first(), report_id);
    }
}

/// A LampArray report belongs to the report ID under which it first lays out data: later items do
/// not move it.
pub proof fn reports_keep_their_id(s: DescriptorState, items: Seq<Item>, report: LampReport)
    requires
        s.lamp_reports.spec_get(report) is Some,
    ensures
        s.run(items).lamp_reports.spec_get(report) == s.lamp_reports.spec_get(report),
    decreases items.len(),
{
    if items.len() > 0 {
        assert(s.step(items[0]).lamp_reports.spec_get(report) == s.lamp_reports.spec_get(report));
        reports_keep_their_id(s.step(items[0]), items.drop_first(), report);
    }
}

/// What holds between the flags of every state that a descriptor leads to: a LampArray report is
/// open only inside a LampArray application.
pub open spec fn nested(s: DescriptorState) -> bool {
    s.current is Some ==> s.in_lamp_array
}

/// LampArray reports are recognized only inside a LampArray application collection.
pub proof fn reports_only_in_lamp_arrays(s: DescriptorState, items: Seq<Item>)
    requires
        nested(s),
    ensures
        nested(s.run(items)),
    decreases items.len(),
{
    if items.len() > 0 {
        reports_only_in_lamp_arrays(s.step(items[0]), items.drop_first());
    }
}

/// A LampArray report becomes known by a data item on the Lighting Page inside a LampArray
/// application, and in no other way.
pub proof fn reports_come_from_lighting_data(s: DescriptorState, it: Item, report: LampReport)
    requires
        nested(s),
        s.step(it).lamp_reports.spec_get(report) != s.lamp_reports.spec_get(report),
    ensures
        lays_out(it),
        s.usage_page == USAGE_PAGE_LIGHTING,
        s.in_lamp_array,
        s.current == Some(report),
{
}

/// A channel of an RGB LED becomes known by a data item on the LED Page inside an RGB LED
/// collection, and in no other way.
pub proof fn channels_come_from_led_data(s: DescriptorState, it: Item, report_id: u8)
    requires
        !(s.channels.contains_key(report_id) && s.channels[report_id].complete()),
        s.step(it).channels.contains_key(report_id),
        s.step(it).channels[report_id].complete(),
    ensures
        lays_out(it),
        s.usage_page == USAGE_PAGE_LED,
        s.in_rgb_led,
        s.report_id == report_id,
{
}

/// Every RGB LED found is complete, carries the size of its report, and they come in ascending
/// order of report IDs, so no two share one; and every complete one is found.
pub proof fn builders_are_complete(s: DescriptorState)
    ensures
        forall|i: int| #![trigger s.builders()[i]]
            0 <= i < s.builders().len() ==> {
                let b = s.builders()[i];
                b.complete() && s.channels.contains_key(b.report_id) && b == s.sized_builder(
                    b.report_id,
                )
            },
        forall|i: int, j: int|
            0 <= i < j < s.builders().len() ==> s.builders()[i].report_id
                < s.builders()[j].report_id,
        forall|id: u8| #[trigger]
            s.channels.contains_key(id) && s.channels[id].complete() ==> s.builders().contains(
                s.sized_builder(id),
            ),
{
    builders_below_are_complete(s, 0x100);
}

proof fn builders_below_are_complete(s: DescriptorState, n: nat)
    requires
        n <= 0x100,
    ensures
        forall|i: int| #![trigger s.builders_below(n)[i]]
            0 <= i < s.builders_below(n).len() ==> {
                let b = s.builders_below(n)[i];
                b.complete() && s.channels.contains_key(b.report_id) && b == s.sized_builder(
                    b.report_id,
                ) && b.report_id < n
            },
        forall|i: int, j: int|
            0 <= i < j < s.builders_below(n).len() ==> s.builders_below(n)[i].report_id
                < s.builders_below(n)[j].report_id,
        forall|id: u8| #[trigger]
            s.channels.contains_key(id) && s.channels[id].complete() && id < n
                ==> s.builders_below(n).contains(s.sized_builder(id)),
    decreases n,
{
    if n > 0 {
        let m = (n - 1) as nat;
        builders_below_are_complete(s, m);
        let rest = s.builders_below(m);
        let all = s.builders_below(n);
        assert forall|id: u8| #[trigger]
            s.channels.contains_key(id) && s.channels[id].complete() && id < n implies all.contains(
            s.sized_builder(id),
        ) by {
            if id < m {
                let k = choose|k: int| 0 <= k < rest.len() && rest[k] == s.sized_builder(id);
                assert(all[k] == s.sized_builder(id));
            } else {
                assert(id == m as u8);
                assert(all.last() == s.sized_builder(id));
            }
        }
    }
}

/// No report is longer than 2^29 bytes, so every report and its ID fit in memory.
pub proof fn sizes_are_bounded(s: DescriptorState, report: LampReport, report_id: u8)
    ensures
        s.sized_reports().spec_get(report) matches Some(info) ==> info.size <= 0x2000_0000,
        s.sized_builder(report_id).report_size <= 0x2000_0000,
{
}

/// A data item whose usages all have a field of at least one bit, and whose report stays below 2^32
/// bits.
pub open spec fn tidy(s: DescriptorState) -> bool {
    &&& state::bits_of(s.bits, s.report_id) + s.item_bits() < 0x1_0000_0000
    &&& s.usages.len() > 0 ==> s.report_size >= 1 && s.usages.len() <= s.report_count
}

/// Items of which every data item is tidy.
pub open spec fn orderly(s: DescriptorState, items: Seq<Item>) -> bool
    decreases items.len(),
{
    items.len() > 0 ==> {
        &&& lays_out(items[0]) ==> tidy(s)
        &&& orderly(s.step(items[0]), items.drop_first())
    }
}

/// A channel that starts before the given bit of its report.
pub open spec fn starts_before(offset: Option<usize>, bits: u32) -> bool {
    offset matches Some(o) ==> o * 8 < bits
}

/// Every channel found starts before the end of its report.
pub open spec fn placed(s: DescriptorState) -> bool {
    forall|id: u8| #[trigger]
        s.channels.contains_key(id) ==> {
            let bits = state::bits_of(s.bits, id);
            &&& starts_before(s.channels[id].red_offset, bits)
            &&& starts_before(s.channels[id].blue_offset, bits)
            &&& starts_before(s.channels[id].green_offset, bits)
            &&& starts_before(s.channels[id].intensity_offset, bits)
        }
}

proof fn last_use_is_a_field(usages: Seq<UsageEntry>, usage: u32)
    ensures
        state::last_use(usages, usage) matches Some(i) ==> 0 <= i < usages.len(),
    decreases usages.len(),
{
    if usages.len() > 0 {
        last_use_is_a_field(usages.drop_last(), usage);
    }
}

proof fn field_starts_inside(s: DescriptorState, usage: u32)
    requires
        tidy(s),
    ensures
        state::last_use(s.usages, usage) matches Some(i) ==> state::field_byte(
            state::bits_of(s.bits, s.report_id),
            i,
            s.report_size,
        ) * 8 < state::bits_of(s.bits, s.report_id) + s.item_bits(),
{
    last_use_is_a_field(s.usages, usage);
    if let Some(i) = state::last_use(s.usages, usage) {
        let size = s.report_size as int;
        let count = s.report_count as int;
        assert(0 <= i * size && i * size + size <= size * count) by (nonlinear_arith)
            requires
                0 <= i,
                i + 1 <= count,
                size >= 1,
        ;
    }
}

proof fn tidy_items_place_channels(s: DescriptorState, it: Item)
    requires
        placed(s),
        lays_out(it) ==> tidy(s),
    ensures
        placed(s.step(it)),
{
    let next = s.step(it);
    if lays_out(it) {
        field_starts_inside(s, USAGE_RED_LED_CHANNEL);
        field_starts_inside(s, USAGE_BLUE_LED_CHANNEL);
        field_starts_inside(s, USAGE_GREEN_LED_CHANNEL);
        field_starts_inside(s, USAGE_LED_INTENSITY);
        assert(0 <= s.report_size * s.report_count) by (nonlinear_arith)
            requires
                s.report_size >= 0,
                s.report_count >= 0,
        ;
    }
    assert forall|id: u8| #[trigger] next.channels.contains_key(id) implies {
        let bits = state::bits_of(next.bits, id);
        &&& starts_before(next.channels[id].red_offset, bits)
        &&& starts_before(next.channels[id].blue_offset, bits)
        &&& starts_before(next.channels[id].green_offset, bits)
        &&& starts_before(next.channels[id].intensity_offset, bits)
    } by {
        if s.channels.contains_key(id) {
            assert(starts_before(s.channels[id].red_offset, state::bits_of(s.bits, id)));
        }
    }
}

proof fn orderly_items_place_channels(s: DescriptorState, items: Seq<Item>)
    requires
        placed(s),
        orderly(s, items),
    ensures
        placed(s.run(items)),
    decreases items.len(),
{
    if items.len() > 0 {
        tidy_items_place_channels(s, items[0]);
        orderly_items_place_channels(s.step(items[0]), items.drop_first());
    }
}

/// In a descriptor whose data items give every usage a field, in reports below 2^32 bits, every
/// channel of every RGB LED found lies inside its report.
pub proof fn channels_lie_inside(desc: Seq<u8>, i: int)
    requires
        orderly(DescriptorState::initial(), item::items_from(desc, 0)),
        0 <= i < state::parsed(desc).builders().len(),
    ensures
        ({
            let b = state::parsed(desc).builders()[i];
            &&& b.red_offset matches Some(o) && o < b.report_size
            &&& b.blue_offset matches Some(o) && o < b.report_size
            &&& b.green_offset matches Some(o) && o < b.report_size
            &&& b.intensity_offset matches Some(o) ==> o < b.report_size
        }),
{
    let s = state::parsed(desc);
    orderly_items_place_channels(DescriptorState::initial(), item::items_from(desc, 0));
    builders_are_complete(s);
    let b = s.builders()[i];
    assert(s.channels.contains_key(b.report_id));
}

/// Of every RGB LED the intensity has a place exactly where it has a LogicalMaximum.
pub open spec fn paired(s: DescriptorState) -> bool {
    forall|id: u8| #[trigger]
        s.channels.contains_key(id) ==> (s.channels[id].intensity_offset is Some
            <==> s.channels[id].intensity_logical_max is Some)
}

/// An RGB LED without an intensity channel has no intensity maximum, and one with it has one.
pub proof fn intensity_goes_with_its_maximum(s: DescriptorState, items: Seq<Item>)
    requires
        paired(s),
    ensures
        paired(s.run(items)),
    decreases items.len(),
{
    if items.len() > 0 {
        let next = s.step(items[0]);
        assert forall|id: u8| #[trigger] next.channels.contains_key(id) implies (
        next.channels[id].intensity_offset is Some
            <==> next.channels[id].intensity_logical_max is Some) by {
            if s.channels.contains_key(id) {
                assert(s.channels[id].intensity_offset is Some
                    <==> s.channels[id].intensity_logical_max is Some);
            }
        }
        intensity_goes_with_its_maximum(next, items.drop_first());
    }
}

} // verus!
