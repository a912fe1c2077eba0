//! What each kind of item brings about, and what every descriptor leads to.
//!
//! The numbers of tags and usages are those of HID 1.11 and of the HID Usage Tables.

use vstd::prelude::*;

use super::item::Item;
use super::state::{DescriptorState, LedRgbChannelBuilder, UsageEntry};
use super::{item, laws, state, LampArrayReports, LampReport};

verus! {

/// What lies outside the Global items is the same in two states.
pub open spec fn same_but_globals(a: DescriptorState, b: DescriptorState) -> bool {
    &&& a.usages == b.usages
    &&& same_findings(a, b)
    &&& same_nesting(a, b)
}

/// What has been found is the same in two states.
pub open spec fn same_findings(a: DescriptorState, b: DescriptorState) -> bool {
    &&& a.lamp_reports == b.lamp_reports
    &&& a.channels == b.channels
    &&& a.bits == b.bits
}

/// The open collections are the same in two states.
pub open spec fn same_nesting(a: DescriptorState, b: DescriptorState) -> bool {
    &&& a.depth == b.depth
    &&& a.current == b.current
    &&& a.in_rgb_led == b.in_rgb_led
    &&& a.in_lamp_array == b.in_lamp_array
}

/// A Global item sets the value that its tag stands for, and leaves everything else as it is.
pub proof fn global_items_set_one_value(s: DescriptorState, it: Item)
    requires
        it.item_type == 1,
    ensures
        ({
            let t = s.step(it);
            let v = item::unsigned(it.payload);
            &&& t.usage_page == if it.tag == 0x04 {
                v
            } else {
                s.usage_page
            }
            &&& t.logical_min == if it.tag == 0x14 {
                item::signed(it.payload)
            } else {
                s.logical_min
            }
            &&& t.logical_max == if it.tag == 0x24 {
                item::signed(it.payload)
            } else {
                s.logical_max
            }
            &&& t.report_size == if it.tag == 0x74 {
                v
            } else {
                s.report_size
            }
            &&& t.report_id as int == if it.tag == 0x84 {
                v % 0x100
            } else {
                s.report_id as u32
            }
            &&& t.report_count == if it.tag == 0x94 {
                v
            } else {
                s.report_count
            }
            &&& same_but_globals(t, s)
        }),
{
}

/// A Local item changes nothing but the usages: a usage joins them at the end, and so does the
/// start of a range.
pub proof fn usages_are_collected(s: DescriptorState, it: Item)
    requires
        it.item_type == 2,
    ensures
        ({
            let t = s.step(it);
            let v = item::unsigned(it.payload);
            &&& same_findings(t, s)
            &&& same_nesting(t, s)
            &&& it.tag == 0x08 ==> t.usages.len() == s.usages.len() + 1 && t.usages.last()
                == UsageEntry::Single(v) && t.usages.drop_last() == s.usages
            &&& it.tag == 0x18 ==> t.usages.len() == s.usages.len() + 1 && t.usages.last()
                == UsageEntry::Min(v) && t.usages.drop_last() == s.usages
            &&& it.tag != 0x08 && it.tag != 0x18 && it.tag != 0x28 ==> t.usages == s.usages
        }),
{
    let t = s.step(it);
    if it.tag == 0x08 || it.tag == 0x18 {
        assert(t.usages.drop_last() =~= s.usages);
    }
}

/// A Usage Minimum and a Usage Maximum stand for all usages from the one to the other, in ascending
/// order, and for none where the minimum is above the maximum.
pub proof fn a_range_is_its_usages(s: DescriptorState, min: Item, max: Item)
    requires
        min.item_type == 2,
        min.tag == 0x18,
        max.item_type == 2,
        max.tag == 0x28,
    ensures
        ({
            let t = s.step(min).step(max);
            let low = item::unsigned(min.payload);
            let high = item::unsigned(max.payload);
            let n = if low <= high {
                high - low + 1
            } else {
                0
            };
            &&& same_findings(t, s)
            &&& same_nesting(t, s)
            &&& t.usages.len() == s.usages.len() + n
            &&& t.usages.take(s.usages.len() as int) == s.usages
            &&& forall|k: int|
                0 <= k < n ==> #[trigger] t.usages[s.usages.len() + k] == UsageEntry::Single(
                    (low + k) as u32,
                )
        }),
{
    let mid = s.step(min);
    let t = mid.step(max);
    assert(mid.usages.drop_last() =~= s.usages);
    assert(t.usages.take(s.usages.len() as int) =~= s.usages);
}

/// A Usage Maximum without a Usage Minimum directly before it stands for nothing.
pub proof fn a_maximum_alone_is_nothing(s: DescriptorState, max: Item)
    requires
        max.item_type == 2,
        max.tag == 0x28,
        s.usages.len() == 0 || s.usages.last() is Single,
    ensures
        s.step(max) == s,
{
}

/// A usage is among the usages.
pub open spec fn among(usages: Seq<UsageEntry>, usage: u32) -> bool {
    exists|i: int| 0 <= i < usages.len() && #[trigger] usages[i] == UsageEntry::Single(usage)
}

/// The usage of the collection of a LampArray report.
pub open spec fn usage_of(report: LampReport) -> u32 {
    match report {
        LampReport::Attributes => 0x02,
        LampReport::AttrRequest => 0x20,
        LampReport::AttrResponse => 0x22,
        LampReport::MultiUpdate => 0x50,
        LampReport::RangeUpdate => 0x60,
        LampReport::Control => 0x70,
    }
}

/// An entry that names a LampArray report.
pub open spec fn names_a_report(e: UsageEntry) -> bool {
    exists|r: LampReport| e == UsageEntry::Single(#[trigger] usage_of(r))
}

/// A collection that opens goes one level down. On the Lighting Page, an Application collection
/// with usage 0x01 opens a LampArray; on the LED Page, a Logical collection with usage 0x52 opens
/// an RGB LED, for which there is a place from then on. Nothing else opens either.
pub proof fn collections_open(s: DescriptorState, it: Item)
    requires
        it.item_type == 0,
        it.tag == 0xA0,
    ensures
        ({
            let t = s.step(it);
            let kind = item::unsigned(it.payload);
            let led = s.usage_page == 0x08 && kind == 2 && among(s.usages, 0x52);
            &&& s.depth < u32::MAX ==> t.depth == s.depth + 1
            &&& t.usages.len() == 0
            &&& t.in_lamp_array <==> s.in_lamp_array || (s.usage_page == 0x59 && kind == 1 && among(
                s.usages,
                0x01,
            ))
            &&& t.in_rgb_led <==> s.in_rgb_led || led
            &&& forall|id: u8| #[trigger]
                t.channels.contains_key(id) <==> s.channels.contains_key(id) || (led && id
                    == s.report_id)
            &&& forall|id: u8| #[trigger]
                s.channels.contains_key(id) ==> t.channels[id] == s.channels[id]
            &&& led && !s.channels.contains_key(s.report_id) ==> {
                let b = t.channels[s.report_id];
                &&& b.red_offset is None && b.green_offset is None && b.blue_offset is None
                &&& b.intensity_offset is None && b.intensity_logical_max is None
            }
            &&& t.bits == s.bits
            &&& t.lamp_reports == s.lamp_reports
        }),
{
    assert(s.usages.contains(UsageEntry::Single(0x01)) <==> among(s.usages, 0x01));
    assert(s.usages.contains(UsageEntry::Single(0x52)) <==> among(s.usages, 0x52));
}

proof fn last_report_is(usages: Seq<UsageEntry>, i: int, report: LampReport)
    requires
        0 <= i < usages.len(),
        usages[i] == UsageEntry::Single(usage_of(report)),
        forall|j: int| i < j < usages.len() ==> !names_a_report(#[trigger] usages[j]),
    ensures
        state::last_report(usages) == Some(report),
    decreases usages.len(),
{
    if i < usages.len() - 1 {
        assert(!names_a_report(usages[usages.len() - 1]));
        assert(state::last_report(usages) == state::last_report(usages.drop_last())) by {
            if let UsageEntry::Single(u) = usages.last() {
                if let Some(r) = state::report_of_usage(u) {
                    assert(usages.last() == UsageEntry::Single(usage_of(r)));
                }
            }
        }
        last_report_is(usages.drop_last(), i, report);
    }
}

proof fn no_last_report(usages: Seq<UsageEntry>)
    requires
        forall|j: int| 0 <= j < usages.len() ==> !names_a_report(#[trigger] usages[j]),
    ensures
        state::last_report(usages) is None,
    decreases usages.len(),
{
    if usages.len() > 0 {
        assert(!names_a_report(usages[usages.len() - 1]));
        if let UsageEntry::Single(u) = usages.last() {
            if let Some(r) = state::report_of_usage(u) {
                assert(usages.last() == UsageEntry::Single(usage_of(r)));
            }
        }
        no_last_report(usages.drop_last());
    }
}

/// Inside a LampArray, a collection on the Lighting Page with the usage of a report opens that
/// report; of several such usages the last counts.
pub proof fn report_collections_open(s: DescriptorState, it: Item, i: int, report: LampReport)
    requires
        it.item_type == 0,
        it.tag == 0xA0,
        s.usage_page == 0x59,
        s.step(it).in_lamp_array,
        0 <= i < s.usages.len(),
        s.usages[i] == UsageEntry::Single(usage_of(report)),
        forall|j: int| i < j < s.usages.len() ==> !names_a_report(#[trigger] s.usages[j]),
    ensures
        s.step(it).current == Some(report),
{
    last_report_is(s.usages, i, report);
}

/// A collection that names no report, or stands on another page or outside a LampArray, leaves the
/// open report as it is.
pub proof fn other_collections_open_no_report(s: DescriptorState, it: Item)
    requires
        it.item_type == 0,
        it.tag == 0xA0,
        s.usage_page != 0x59 || !s.step(it).in_lamp_array || forall|j: int|
            0 <= j < s.usages.len() ==> !names_a_report(#[trigger] s.usages[j]),
    ensures
        s.step(it).current == s.current,
{
    if s.usage_page == 0x59 && s.step(it).in_lamp_array {
        no_last_report(s.usages);
    }
}

/// A collection that closes goes one level up, but not above the top. Back inside the outermost
/// collection no report and no RGB LED is open any longer, and outside it no LampArray is; further
/// down nothing else ends.
pub proof fn collections_close(s: DescriptorState, it: Item)
    requires
        it.item_type == 0,
        it.tag == 0xC0,
    ensures
        ({
            let t = s.step(it);
            &&& s.depth > 0 ==> t.depth == s.depth - 1
            &&& s.depth == 0 ==> t.depth == 0
            &&& t.usages.len() == 0
            &&& same_findings(t, s)
            &&& s.depth <= 2 ==> t.current is None && !t.in_rgb_led
            &&& s.depth > 2 ==> t.current == s.current && t.in_rgb_led == s.in_rgb_led
            &&& s.depth <= 1 ==> !t.in_lamp_array
            &&& s.depth > 1 ==> t.in_lamp_array == s.in_lamp_array
        }),
{
}

/// An Input, Output or Feature item.
pub open spec fn is_data(it: Item) -> bool {
    it.item_type == 0 && (it.tag == 0x80 || it.tag == 0x90 || it.tag == 0xB0)
}

/// A data item on the Lighting Page makes the open report known, whatever its usages are: under the
/// current report ID, unless the report was known before. It changes no other report, and on other
/// pages, or with no report open, none at all.
pub proof fn lighting_data_makes_reports_known(s: DescriptorState, it: Item, report: LampReport)
    requires
        is_data(it),
    ensures
        ({
            let before = s.lamp_reports.spec_get(report);
            let after = s.step(it).lamp_reports.spec_get(report);
            if s.usage_page == 0x59 && s.current == Some(report) {
                &&& after is Some
                &&& before is None ==> after->0.report_id == s.report_id
                &&& before is Some ==> after == before
            } else {
                after == before
            }
        }),
{
}

/// A data item lays out its fields, one after the other, behind what its report already holds, and
/// leaves the open collections and all other reports alone.
pub proof fn data_items_lay_out_fields(s: DescriptorState, it: Item, id: u8)
    requires
        is_data(it),
    ensures
        ({
            let t = s.step(it);
            &&& same_nesting(t, s)
            &&& t.usages.len() == 0
            &&& id != s.report_id ==> state::bits_of(t.bits, id) == state::bits_of(s.bits, id)
            &&& state::bits_of(s.bits, s.report_id) + s.report_size * s.report_count
                < 0x1_0000_0000 ==> state::bits_of(t.bits, s.report_id) == state::bits_of(
                s.bits,
                s.report_id,
            ) + s.report_size * s.report_count
        }),
{
    assert(0 <= s.report_size * s.report_count) by (nonlinear_arith)
        requires
            s.report_size >= 0,
            s.report_count >= 0,
    ;
}

/// The bits that a report ID has: those that were laid out for it, and none before the first.
pub proof fn unknown_reports_are_empty(s: DescriptorState, id: u8)
    ensures
        s.bits.contains_key(id) ==> state::bits_of(s.bits, id) == s.bits[id],
        !s.bits.contains_key(id) ==> state::bits_of(s.bits, id) == 0,
{
}

/// The four channels of an RGB LED.
pub enum LedChannel {
    Red,
    Blue,
    Green,
    Intensity,
}

/// The usage of a channel: blue comes before green.
pub open spec fn channel_usage(channel: LedChannel) -> u32 {
    match channel {
        LedChannel::Red => 0x53,
        LedChannel::Blue => 0x54,
        LedChannel::Green => 0x55,
        LedChannel::Intensity => 0x56,
    }
}

/// Where a channel is, as far as it is known.
pub open spec fn channel_offset(b: LedRgbChannelBuilder, channel: LedChannel) -> Option<usize> {
    match channel {
        LedChannel::Red => b.red_offset,
        LedChannel::Blue => b.blue_offset,
        LedChannel::Green => b.green_offset,
        LedChannel::Intensity => b.intensity_offset,
    }
}

/// The maximum of a channel, as far as it is known.
pub open spec fn channel_max(b: LedRgbChannelBuilder, channel: LedChannel) -> Option<u32> {
    match channel {
        LedChannel::Red => Some(b.red_logical_max),
        LedChannel::Blue => Some(b.blue_logical_max),
        LedChannel::Green => Some(b.green_logical_max),
        LedChannel::Intensity => b.intensity_logical_max,
    }
}

proof fn last_use_is(usages: Seq<UsageEntry>, i: int, usage: u32)
    requires
        0 <= i < usages.len(),
        usages[i] == UsageEntry::Single(usage),
        forall|j: int| i < j < usages.len() ==> #[trigger] usages[j] != UsageEntry::Single(usage),
    ensures
        state::last_use(usages, usage) == Some(i),
    decreases usages.len(),
{
    if i < usages.len() - 1 {
        assert(usages[usages.len() - 1] != UsageEntry::Single(usage));
        last_use_is(usages.drop_last(), i, usage);
    }
}

proof fn no_last_use(usages: Seq<UsageEntry>, usage: u32)
    requires
        !among(usages, usage),
    ensures
        state::last_use(usages, usage) is None,
    decreases usages.len(),
{
    if usages.len() > 0 {
        assert(usages[usages.len() - 1] != UsageEntry::Single(usage));
        let rest = usages.drop_last();
        if among(rest, usage) {
            let i = choose|i: int| 0 <= i < rest.len() && #[trigger] rest[i] == UsageEntry::Single(usage);
            assert(usages[i] == UsageEntry::Single(usage));
        }
        no_last_use(rest, usage);
    }
}

/// Inside an RGB LED, a data item on the LED Page whose usage number `i` is a channel, and no later
/// one is, says where the channel is and what its maximum is: it starts in the byte in which field
/// number `i` of the item starts, and its maximum is the LogicalMaximum in force, or 0 where that is
/// negative. The report is of the item's type, and the red channel tells the size of all channels.
pub proof fn led_data_places_a_channel(s: DescriptorState, it: Item, i: int, channel: LedChannel)
    requires
        is_data(it),
        s.usage_page == 0x08,
        s.in_rgb_led,
        0 <= i < s.usages.len(),
        s.usages[i] == UsageEntry::Single(channel_usage(channel)),
        forall|j: int|
            i < j < s.usages.len() ==> #[trigger] s.usages[j] != UsageEntry::Single(
                channel_usage(channel),
            ),
    ensures
        ({
            let t = s.step(it);
            let b = t.channels[s.report_id];
            let start = state::bits_of(s.bits, s.report_id) + i * s.report_size;
            &&& t.channels.contains_key(s.report_id)
            &&& channel_offset(b, channel) is Some
            &&& start < 0x1_0000_0000 ==> channel_offset(b, channel)->0 == start / 8
            &&& channel_offset(b, channel)->0 == start % 0x1_0000_0000 / 8
            &&& channel_max(b, channel) is Some
            &&& s.logical_max >= 0 ==> channel_max(b, channel)->0 == s.logical_max
            &&& s.logical_max < 0 ==> channel_max(b, channel)->0 == 0
            &&& channel is Red ==> b.channel_size == s.report_size
        }),
{
    last_use_is(s.usages, i, channel_usage(channel));
    assert(0 <= i * s.report_size) by (nonlinear_arith)
        requires
            0 <= i,
            s.report_size >= 0,
    ;
}

/// A data item leaves alone the channels whose usages it does not have, the channels of all other
/// reports, and outside an RGB LED or the LED Page all channels. Inside, the report has the type of
/// the last item.
pub proof fn led_data_leaves_the_rest(s: DescriptorState, it: Item, id: u8, channel: LedChannel)
    requires
        is_data(it),
    ensures
        ({
            let t = s.step(it);
            let b = t.channels[id];
            &&& if s.usage_page == 0x08 && s.in_rgb_led && id == s.report_id {
                &&& t.channels.contains_key(id)
                &&& it.tag == 0x80 ==> b.report_type is Input
                &&& it.tag == 0x90 ==> b.report_type is Output
                &&& it.tag == 0xB0 ==> b.report_type is Feature
                &&& !among(s.usages, channel_usage(channel)) && s.channels.contains_key(id) ==> {
                    &&& channel_offset(b, channel) == channel_offset(s.channels[id], channel)
                    &&& channel_max(b, channel) == channel_max(s.channels[id], channel)
                    &&& channel is Red ==> b.channel_size == s.channels[id].channel_size
                }
                &&& !among(s.usages, channel_usage(channel)) && !s.channels.contains_key(id)
                    ==> channel_offset(b, channel) is None
            } else {
                &&& t.channels.contains_key(id) <==> s.channels.contains_key(id)
                &&& s.channels.contains_key(id) ==> b == s.channels[id]
            }
        }),
{
    if !among(s.usages, channel_usage(channel)) {
        no_last_use(s.usages, channel_usage(channel));
    }
}

/// At first nothing is known, and no collection is open.
pub proof fn nothing_is_known_at_first(report: LampReport, id: u8)
    ensures
        ({
            let s = state::parsed(Seq::empty());
            &&& s.lamp_reports.spec_get(report) is None
            &&& !s.channels.contains_key(id)
            &&& state::bits_of(s.bits, id) == 0
            &&& s.usages.len() == 0
            &&& s.depth == 0 && s.current is None && !s.in_rgb_led && !s.in_lamp_array
            &&& s.usage_page == 0 && s.report_id == 0 && s.report_size == 0 && s.report_count == 0
            &&& s.logical_min == 0 && s.logical_max == 0
        }),
{
}

/// A whole descriptor with one more item at its end says what it said before, and then what the
/// item says.
pub proof fn items_take_effect_in_turn(desc: Seq<u8>, more: Seq<u8>)
    requires
        item::whole(desc),
        item::item_at(more, 0) matches Some(it) && it.len == more.len(),
    ensures
        state::parsed(desc + more) == state::parsed(desc).step(item::item_at(more, 0)->0),
        item::whole(desc + more),
{
    let it = item::item_at(more, 0)->0;
    laws::descriptor_continues(desc, more);
    let items = item::items_from(more, 0);
    assert(item::item_at(more, more.len() as int) is None);
    assert(item::items_from(more, more.len() as int) == Seq::<Item>::empty());
    assert(items =~= seq![it]);
    assert(items.drop_first() =~= Seq::empty());
    let s = state::parsed(desc);
    assert(s.step(it).run(items.drop_first()) == s.step(it));
    item::whole_append(desc, more);
}

/// The sizes of reports: every known report keeps its ID, gets as many bytes as hold its bits, and
/// no other report appears.
pub proof fn reports_get_their_sizes(s: DescriptorState, report: LampReport)
    ensures
        match (s.lamp_reports.spec_get(report), s.sized_reports().spec_get(report)) {
            (Some(before), Some(after)) => {
                &&& after.report_id == before.report_id
                &&& 8 * (after.size - 1) < state::bits_of(s.bits, before.report_id) <= 8
                    * after.size
            },
            (None, None) => true,
            _ => false,
        },
{
}

/// The RGB LEDs that are found: for every report ID whose channels red, green and blue are known
/// there is one, with exactly these channels, maxima and type, and with as many bytes as hold the
/// bits of the report; and there are no others, nor one twice.
pub proof fn leds_are_found_as_described(s: DescriptorState, id: u8)
    ensures
        ({
            let complete = s.channels.contains_key(id) && s.channels[id].red_offset is Some
                && s.channels[id].green_offset is Some && s.channels[id].blue_offset is Some;
            let found = s.builders();
            &&& complete <==> exists|i: int|
                0 <= i < found.len() && (#[trigger] found[i]).report_id == id
            &&& forall|i: int, j: int|
                0 <= i < found.len() && 0 <= j < found.len() && (#[trigger] found[i]).report_id
                    == (#[trigger] found[j]).report_id ==> i == j
            &&& forall|i: int|
                0 <= i < found.len() && (#[trigger] found[i]).report_id == id ==> {
                    let b = found[i];
                    let c = s.channels[id];
                    &&& 8 * (b.report_size - 1) < state::bits_of(s.bits, id) <= 8 * b.report_size
                    &&& b.red_offset == c.red_offset && b.red_logical_max == c.red_logical_max
                    &&& b.green_offset == c.green_offset && b.green_logical_max
                        == c.green_logical_max
                    &&& b.blue_offset == c.blue_offset && b.blue_logical_max == c.blue_logical_max
                    &&& b.intensity_offset == c.intensity_offset && b.intensity_logical_max
                        == c.intensity_logical_max
                    &&& b.channel_size == c.channel_size && b.report_type == c.report_type
                }
        }),
{
    laws::builders_are_complete(s);
    let found = s.builders();
    if s.channels.contains_key(id) && s.channels[id].complete() {
        assert(found.contains(s.sized_builder(id)));
        let i = choose|i: int| 0 <= i < found.len() && found[i] == s.sized_builder(id);
        assert(found[i].report_id == id);
    }
}

/// Only Global items change what Global items have set.
pub proof fn other_items_set_no_values(s: DescriptorState, it: Item)
    requires
        it.item_type != 1,
    ensures
        ({
            let t = s.step(it);
            &&& t.usage_page == s.usage_page
            &&& t.report_id == s.report_id
            &&& t.report_size == s.report_size
            &&& t.report_count == s.report_count
            &&& t.logical_min == s.logical_min
            &&& t.logical_max == s.logical_max
        }),
{
}

/// Main items but for collections, their ends and data, and items of the reserved type, change
/// nothing.
pub proof fn other_items_have_no_effect(s: DescriptorState, it: Item)
    requires
        it.item_type >= 3 || (it.item_type == 0 && it.tag != 0xA0 && it.tag != 0xC0 && !is_data(
            it,
        )),
    ensures
        s.step(it) == s,
{
}

/// The bits of a report are counted in 32 bits, and so are the open collections.
pub proof fn counts_wrap_around(s: DescriptorState, it: Item)
    ensures
        is_data(it) ==> state::bits_of(s.step(it).bits, s.report_id) == (state::bits_of(
            s.bits,
            s.report_id,
        ) + s.report_size * s.report_count) % 0x1_0000_0000,
        it.item_type == 0 && it.tag == 0xA0 ==> s.step(it).depth == (s.depth + 1) % 0x1_0000_0000,
{
}

/// A new RGB LED has levels up to 255 and channels of 8 bits until data says otherwise.
pub proof fn new_leds_have_full_levels(s: DescriptorState, it: Item)
    requires
        !s.channels.contains_key(s.report_id),
    ensures
        ({
            let t = s.step(it);
            let b = t.channels[s.report_id];
            &&& it.item_type == 0 && it.tag == 0xA0 && t.channels.contains_key(s.report_id) ==> {
                &&& b.red_logical_max == 255 && b.green_logical_max == 255 && b.blue_logical_max
                    == 255
                &&& b.channel_size == 8
                &&& b.report_type is Feature
            }
            &&& is_data(it) && t.channels.contains_key(s.report_id) ==> {
                &&& !among(s.usages, 0x53) ==> b.red_logical_max == 255 && b.channel_size == 8
                &&& !among(s.usages, 0x54) ==> b.blue_logical_max == 255
                &&& !among(s.usages, 0x55) ==> b.green_logical_max == 255
                &&& !among(s.usages, 0x56) ==> b.intensity_logical_max is None
            }
        }),
{
    if !among(s.usages, 0x53) {
        no_last_use(s.usages, 0x53);
    }
    if !among(s.usages, 0x54) {
        no_last_use(s.usages, 0x54);
    }
    if !among(s.usages, 0x55) {
        no_last_use(s.usages, 0x55);
    }
    if !among(s.usages, 0x56) {
        no_last_use(s.usages, 0x56);
    }
}

/// Each report is kept under its own name, and has the name that errors give it.
pub proof fn reports_have_their_names(reports: LampArrayReports)
    ensures
        reports.spec_get(LampReport::Attributes) == reports.attributes,
        reports.spec_get(LampReport::AttrRequest) == reports.attr_request,
        reports.spec_get(LampReport::AttrResponse) == reports.attr_response,
        reports.spec_get(LampReport::MultiUpdate) == reports.multi_update,
        reports.spec_get(LampReport::RangeUpdate) == reports.range_update,
        reports.spec_get(LampReport::Control) == reports.control,
        LampReport::Attributes.spec_name() == "attributes"@,
        LampReport::AttrRequest.spec_name() == "attr_request"@,
        LampReport::AttrResponse.spec_name() == "attr_response"@,
        LampReport::MultiUpdate.spec_name() == "multi_update"@,
        LampReport::RangeUpdate.spec_name() == "range_update"@,
        LampReport::Control.spec_name() == "control"@,
{
}

/// A report collection names the report with its usage, and no other usage names one.
pub proof fn usages_name_reports(usage: u32)
    ensures
        match state::report_of_usage(usage) {
            Some(report) => usage == usage_of(report),
            None => forall|report: LampReport| usage != #[trigger] usage_of(report),
        },
        forall|report: LampReport|
            state::report_of_usage(#[trigger] usage_of(report)) == Some(report),
{
}

} // verus!
