//! What to send to the lamps: level limits, validation and scaling of colors, and the reports
//! that are not cut into batches.

use std::collections::HashSet;

use vstd::prelude::*;

use crate::bytes;
use crate::device::lamp::LampAttributes;
use crate::device::multi_update::LampColor;
use crate::device::scale;
use crate::error::{Error, ErrorView};

verus! {

/// The four values that make a lamp's color.
pub enum Channel {
    Red,
    Green,
    Blue,
    Intensity,
}

/// How many levels a lamp declares for a channel.
pub open spec fn level_count(lamp: LampAttributes, channel: Channel) -> u8 {
    match channel {
        Channel::Red => lamp.red_level_count,
        Channel::Green => lamp.green_level_count,
        Channel::Blue => lamp.blue_level_count,
        Channel::Intensity => lamp.intensity_level_count,
    }
}

/// Whether a lamp takes part in a channel: FixedColor lamps ignore red, green and blue
/// (Section 26.11.2), and every lamp has an intensity.
pub open spec fn uses_channel(lamp: LampAttributes, channel: Channel) -> bool {
    lamp.is_programmable || channel is Intensity
}

/// The smallest level count of a channel among the lamps that take part in it, and at most 255.
pub open spec fn level_limit(lamps: Seq<LampAttributes>, channel: Channel) -> u32
    decreases lamps.len(),
{
    if lamps.len() == 0 {
        255
    } else {
        let before = level_limit(lamps.drop_last(), channel);
        let here = level_count(lamps.last(), channel) as u32;
        if uses_channel(lamps.last(), channel) && here < before {
            here
        } else {
            before
        }
    }
}

/// The level limit is a lower bound of the level counts that take part, and the greatest one
/// not above 255.
pub proof fn level_limit_is_minimum(lamps: Seq<LampAttributes>, channel: Channel)
    ensures
        level_limit(lamps, channel) <= 255,
        forall|i: int|
            #![trigger lamps[i]]
            0 <= i < lamps.len() && uses_channel(lamps[i], channel) ==> level_limit(lamps, channel)
                <= level_count(lamps[i], channel),
        level_limit(lamps, channel) == 255 || exists|i: int|
            #![trigger lamps[i]]
            0 <= i < lamps.len() && uses_channel(lamps[i], channel) && level_limit(lamps, channel)
                == level_count(lamps[i], channel),
    decreases lamps.len(),
{
    if lamps.len() > 0 {
        let rest = lamps.drop_last();
        level_limit_is_minimum(rest, channel);
        assert forall|i: int|
            #![trigger lamps[i]]
            0 <= i < lamps.len() && uses_channel(lamps[i], channel) implies level_limit(
            lamps,
            channel,
        ) <= level_count(lamps[i], channel) by {
            if i < rest.len() {
                assert(rest[i] == lamps[i]);
            }
        }
        if level_limit(lamps, channel) != 255 {
            if level_limit(lamps, channel) == level_limit(rest, channel) {
                let i = choose|i: int|
                    #![trigger rest[i]]
                    0 <= i < rest.len() && uses_channel(rest[i], channel) && level_limit(
                        rest,
                        channel,
                    ) == level_count(rest[i], channel);
                assert(lamps[i] == rest[i]);
            } else {
                assert(lamps[lamps.len() - 1] == lamps.last());
            }
        }
    }
}

/// The level limits of all four channels, in the order red, green, blue, intensity.
pub fn color_limits(lamps: &Vec<LampAttributes>) -> (limits: (u32, u32, u32, u32))
    ensures
        limits.0 == level_limit(lamps@, Channel::Red),
        limits.1 == level_limit(lamps@, Channel::Green),
        limits.2 == level_limit(lamps@, Channel::Blue),
        limits.3 == level_limit(lamps@, Channel::Intensity),
{
    let mut r: u32 = 255;
    let mut g: u32 = 255;
    let mut b: u32 = 255;
    let mut i: u32 = 255;
    let mut n: usize = 0;
    while n < lamps.len()
        invariant
            n <= lamps@.len(),
            r == level_limit(lamps@.take(n as int), Channel::Red),
            g == level_limit(lamps@.take(n as int), Channel::Green),
            b == level_limit(lamps@.take(n as int), Channel::Blue),
            i == level_limit(lamps@.take(n as int), Channel::Intensity),
        decreases lamps@.len() - n,
    {
        let lamp: LampAttributes = lamps[n];
        proof {
            assert(lamps@.take(n + 1).drop_last() =~= lamps@.take(n as int));
            assert(lamps@.take(n + 1).last() == lamp);
        }
        if lamp.is_programmable {
            if (lamp.red_level_count as u32) < r {
                r = lamp.red_level_count as u32;
            }
            if (lamp.green_level_count as u32) < g {
                g = lamp.green_level_count as u32;
            }
            if (lamp.blue_level_count as u32) < b {
                b = lamp.blue_level_count as u32;
            }
        }
        if (lamp.intensity_level_count as u32) < i {
            i = lamp.intensity_level_count as u32;
        }
        n = n + 1;
    }
    assert(lamps@.take(n as int) =~= lamps@);
    (r, g, b, i)
}

/// The LampRangeUpdateReport that sets lamps 0 to `last` (Section 26.11.2):
/// `[ReportID, Flags(8), IdStart(16), IdEnd(16), R(8), G(8), B(8), I(8)]`, with
/// LampUpdateComplete in the flags.
pub open spec fn range_report(
    report_id: u8,
    size: nat,
    last: u16,
    red: u8,
    green: u8,
    blue: u8,
    intensity: u8,
) -> Seq<u8> {
    seq![
        report_id,
        1u8,
        0u8,
        0u8,
        bytes::low_byte(last),
        bytes::high_byte(last),
        red,
        green,
        blue,
        intensity,
    ] + bytes::zeros((size - 9) as nat)
}

/// Builds the LampRangeUpdateReport.
pub fn build_range_report(
    report_id: u8,
    size: usize,
    last: u16,
    red: u8,
    green: u8,
    blue: u8,
    intensity: u8,
) -> (buf: Vec<u8>)
    requires
        9 <= size < isize::MAX,
    ensures
        buf@ == range_report(report_id, size as nat, last, red, green, blue, intensity),
{
    let mut buf: Vec<u8> = vec![0u8; size + 1];
    buf[0] = report_id;
    buf[1] = 0x01;
    buf[4] = (last % 0x100) as u8;
    buf[5] = (last / 0x100) as u8;
    buf[6] = red;
    buf[7] = green;
    buf[8] = blue;
    buf[9] = intensity;
    assert(buf@ =~= range_report(report_id, size as nat, last, red, green, blue, intensity));
    buf
}

/// The LampArrayControlReport that turns AutonomousMode on or off (Section 26.10.1).
pub open spec fn control_report(report_id: u8, size: nat, enabled: bool) -> Seq<u8> {
    seq![
        report_id,
        if enabled {
            1u8
        } else {
            0u8
        },
    ] + bytes::zeros((size - 1) as nat)
}

/// Builds the LampArrayControlReport.
pub fn build_control_report(report_id: u8, size: usize, enabled: bool) -> (buf: Vec<u8>)
    requires
        1 <= size < isize::MAX,
    ensures
        buf@ == control_report(report_id, size as nat, enabled),
{
    let mut buf: Vec<u8> = vec![0u8; size + 1];
    buf[0] = report_id;
    buf[1] = if enabled {
        0x01
    } else {
        0x00
    };
    assert(buf@ =~= control_report(report_id, size as nat, enabled));
    buf
}

/// The LampAttributesRequestReport for one lamp (Section 26.8.2).
pub open spec fn lamp_request(report_id: u8, size: nat, index: u16) -> Seq<u8> {
    seq![report_id, bytes::low_byte(index), bytes::high_byte(index)] + bytes::zeros(
        (size - 2) as nat,
    )
}

/// Builds the LampAttributesRequestReport for one lamp.
pub fn build_lamp_request(report_id: u8, size: usize, index: u16) -> (buf: Vec<u8>)
    requires
        2 <= size < isize::MAX,
    ensures
        buf@ == lamp_request(report_id, size as nat, index),
{
    let mut buf: Vec<u8> = vec![0u8; size + 1];
    buf[0] = report_id;
    buf[1] = (index % 0x100) as u8;
    buf[2] = (index / 0x100) as u8;
    assert(buf@ =~= lamp_request(report_id, size as nat, index));
    buf
}

/// The LampAttributesRequestReport that starts the sequence of all lamps: lamp 0, and nothing
/// but zeros after the report ID.
pub open spec fn first_lamp_request(report_id: u8, size: nat) -> Seq<u8> {
    seq![report_id] + bytes::zeros(size)
}

/// Builds the LampAttributesRequestReport that starts the sequence of all lamps.
pub fn build_first_lamp_request(report_id: u8, size: usize) -> (buf: Vec<u8>)
    requires
        size < isize::MAX,
    ensures
        buf@ == first_lamp_request(report_id, size as nat),
{
    let mut buf: Vec<u8> = vec![0u8; size + 1];
    buf[0] = report_id;
    assert(buf@ =~= first_lamp_request(report_id, size as nat));
    buf
}

/// The sequence of all lamps starts with the request for lamp 0.
pub proof fn first_lamp_request_asks_for_lamp_zero(report_id: u8, size: nat)
    requires
        size >= 2,
    ensures
        first_lamp_request(report_id, size) == lamp_request(report_id, size, 0),
{
    assert(first_lamp_request(report_id, size) =~= lamp_request(report_id, size, 0));
}

/// The lamp ID of the first color that is meant for a lamp the device does not have.
pub open spec fn first_out_of_range(colors: Seq<LampColor>, lamp_count: u16) -> Option<u16>
    decreases colors.len(),
{
    if colors.len() == 0 {
        None
    } else {
        match first_out_of_range(colors.drop_last(), lamp_count) {
            Some(id) => Some(id),
            None => if colors.last().lamp_id >= lamp_count {
                Some(colors.last().lamp_id)
            } else {
                None
            },
        }
    }
}

/// The set of lamp IDs in a list of colors.
pub open spec fn lamp_ids(colors: Seq<LampColor>) -> Set<u16> {
    colors.map_values(|c: LampColor| c.lamp_id).to_set()
}

/// The lamp ID of the first color whose lamp has occurred before it.
pub open spec fn first_duplicate(colors: Seq<LampColor>) -> Option<u16>
    decreases colors.len(),
{
    if colors.len() == 0 {
        None
    } else {
        match first_duplicate(colors.drop_last()) {
            Some(id) => Some(id),
            None => if lamp_ids(colors.drop_last()).contains(colors.last().lamp_id) {
                Some(colors.last().lamp_id)
            } else {
                None
            },
        }
    }
}

/// What is wrong with the lamp IDs of an update (Section 26.11.1): an ID at or above the lamp
/// count, or else an ID in two places.
pub open spec fn id_error(colors: Seq<LampColor>, lamp_count: u16) -> Option<ErrorView> {
    match first_out_of_range(colors, lamp_count) {
        Some(lamp_id) => Some(ErrorView::LampIdOutOfRange { lamp_id, lamp_count }),
        None => match first_duplicate(colors) {
            Some(lamp_id) => Some(ErrorView::DuplicateLampId { lamp_id }),
            None => None,
        },
    }
}

/// An update is accepted exactly when all its lamp IDs are below the lamp count and no two of
/// them are the same.
pub proof fn accepted_ids(colors: Seq<LampColor>, lamp_count: u16)
    ensures
        id_error(colors, lamp_count) is None <==> {
            &&& forall|i: int| 0 <= i < colors.len() ==> (#[trigger] colors[i]).lamp_id < lamp_count
            &&& forall|i: int, j: int|
                0 <= i < j < colors.len() ==> (#[trigger] colors[i]).lamp_id != (
                #[trigger] colors[j]).lamp_id
        },
{
    no_out_of_range(colors, lamp_count);
    no_duplicate(colors);
}

proof fn no_out_of_range(colors: Seq<LampColor>, lamp_count: u16)
    ensures
        first_out_of_range(colors, lamp_count) is None <==> forall|i: int|
            0 <= i < colors.len() ==> (#[trigger] colors[i]).lamp_id < lamp_count,
    decreases colors.len(),
{
    if colors.len() > 0 {
        let rest = colors.drop_last();
        no_out_of_range(rest, lamp_count);
        assert(forall|i: int| 0 <= i < rest.len() ==> rest[i] == #[trigger] colors[i]);
        if first_out_of_range(rest, lamp_count) is Some {
            let i = choose|i: int| 0 <= i < rest.len() && (#[trigger] rest[i]).lamp_id >= lamp_count;
            assert(colors[i].lamp_id >= lamp_count);
        } else {
            assert(colors[colors.len() - 1] == colors.last());
        }
    }
}

proof fn in_lamp_ids(colors: Seq<LampColor>, id: u16)
    ensures
        lamp_ids(colors).contains(id) <==> exists|i: int|
            0 <= i < colors.len() && (#[trigger] colors[i]).lamp_id == id,
{
    let ids = colors.map_values(|c: LampColor| c.lamp_id);
    if exists|i: int| 0 <= i < colors.len() && (#[trigger] colors[i]).lamp_id == id {
        let i = choose|i: int| 0 <= i < colors.len() && (#[trigger] colors[i]).lamp_id == id;
        assert(ids[i] == id);
    }
    if ids.contains(id) {
        let i = choose|i: int| 0 <= i < ids.len() && ids[i] == id;
        assert(colors[i].lamp_id == id);
    }
}

proof fn no_duplicate(colors: Seq<LampColor>)
    ensures
        first_duplicate(colors) is None <==> forall|i: int, j: int|
            0 <= i < j < colors.len() ==> (#[trigger] colors[i]).lamp_id != (
            #[trigger] colors[j]).lamp_id,
    decreases colors.len(),
{
    if colors.len() > 0 {
        let rest = colors.drop_last();
        no_duplicate(rest);
        in_lamp_ids(rest, colors.last().lamp_id);
        assert(forall|i: int| 0 <= i < rest.len() ==> #[trigger] rest[i] == #[trigger] colors[i]);
        assert(colors[colors.len() - 1] == colors.last());
        if first_duplicate(rest) is Some {
            let (i, j) = choose|i: int, j: int|
                0 <= i < j < rest.len() && (#[trigger] rest[i]).lamp_id == (
                #[trigger] rest[j]).lamp_id;
            assert(colors[i].lamp_id == colors[j].lamp_id);
        } else if lamp_ids(rest).contains(colors.last().lamp_id) {
            let i = choose|i: int|
                0 <= i < rest.len() && (#[trigger] rest[i]).lamp_id == colors.last().lamp_id;
            assert(colors[i].lamp_id == colors[colors.len() - 1].lamp_id);
        } else {
            assert forall|i: int, j: int| 0 <= i < j < colors.len() implies (
            #[trigger] colors[i]).lamp_id != (#[trigger] colors[j]).lamp_id by {
                assert(rest[i] == colors[i]);
                if j < rest.len() {
                    assert(rest[j] == colors[j]);
                }
            }
        }
    }
}

/// Checks the lamp IDs of an update.
pub fn check_ids(colors: &Vec<LampColor>, lamp_count: u16) -> (r: Result<(), Error>)
    ensures
        match r {
            Ok(_) => id_error(colors@, lamp_count) is None,
            Err(e) => id_error(colors@, lamp_count) == Some(e@),
        },
{
    let mut n: usize = 0;
    while n < colors.len()
        invariant
            n <= colors@.len(),
            first_out_of_range(colors@.take(n as int), lamp_count) is None,
        decreases colors@.len() - n,
    {
        let lamp_id: u16 = colors[n].lamp_id;
        proof {
            assert(colors@.take(n + 1).drop_last() =~= colors@.take(n as int));
            assert(colors@.take(n + 1).last() == colors@[n as int]);
        }
        if lamp_id >= lamp_count {
            proof {
                first_out_of_range_stays(colors@, n + 1, lamp_count);
            }
            return Err(Error::LampIdOutOfRange { lamp_id, lamp_count });
        }
        n = n + 1;
    }
    assert(colors@.take(n as int) =~= colors@);

    let mut seen: HashSet<u16> = HashSet::new();
    let mut n: usize = 0;
    assert(lamp_ids(colors@.take(0)) =~= Set::<u16>::empty());
    while n < colors.len()
        invariant
            n <= colors@.len(),
            first_out_of_range(colors@, lamp_count) is None,
            first_duplicate(colors@.take(n as int)) is None,
            seen@ == lamp_ids(colors@.take(n as int)),
        decreases colors@.len() - n,
    {
        broadcast use vstd::std_specs::hash::group_hash_axioms;

        let lamp_id: u16 = colors[n].lamp_id;
        proof {
            let some = colors@.take(n as int);
            let more = colors@.take(n + 1);
            assert(more.drop_last() =~= some);
            assert(more.last() == colors@[n as int]);
            assert forall|id: u16| lamp_ids(more).contains(id) <==> (lamp_ids(some).contains(id)
                || id == lamp_id) by {
                in_lamp_ids(more, id);
                in_lamp_ids(some, id);
                assert(forall|i: int| 0 <= i < some.len() ==> some[i] == #[trigger] more[i]);
                if lamp_ids(some).contains(id) {
                    let i = choose|i: int| 0 <= i < some.len() && (#[trigger] some[i]).lamp_id == id;
                    assert(more[i].lamp_id == id);
                }
                assert(more[n as int].lamp_id == lamp_id);
            }
            assert(lamp_ids(more) =~= lamp_ids(some).insert(lamp_id));
        }
        if !seen.insert(lamp_id) {
            proof {
                first_duplicate_stays(colors@, n + 1);
            }
            return Err(Error::DuplicateLampId { lamp_id });
        }
        n = n + 1;
    }
    assert(colors@.take(n as int) =~= colors@);
    Ok(())
}

proof fn first_out_of_range_stays(colors: Seq<LampColor>, n: int, lamp_count: u16)
    requires
        0 <= n <= colors.len(),
        first_out_of_range(colors.take(n), lamp_count) is Some,
    ensures
        first_out_of_range(colors, lamp_count) == first_out_of_range(colors.take(n), lamp_count),
    decreases colors.len() - n,
{
    if n == colors.len() {
        assert(colors.take(n) =~= colors);
    } else {
        assert(colors.take(n + 1).drop_last() =~= colors.take(n));
        first_out_of_range_stays(colors, n + 1, lamp_count);
    }
}

proof fn first_duplicate_stays(colors: Seq<LampColor>, n: int)
    requires
        0 <= n <= colors.len(),
        first_duplicate(colors.take(n)) is Some,
    ensures
        first_duplicate(colors) == first_duplicate(colors.take(n)),
    decreases colors.len() - n,
{
    if n == colors.len() {
        assert(colors.take(n) =~= colors);
    } else {
        assert(colors.take(n + 1).drop_last() =~= colors.take(n));
        first_duplicate_stays(colors, n + 1);
    }
}

/// A color on the scale of the lamp it is meant for (Section 26.9). FixedColor lamps get red,
/// green and blue as zeros (Section 26.11.1).
pub open spec fn scaled_color(c: LampColor, lamp: LampAttributes) -> LampColor {
    LampColor {
        lamp_id: c.lamp_id,
        red: if lamp.is_programmable {
            scale::scaled(c.red, lamp.red_level_count as u32)
        } else {
            0
        },
        green: if lamp.is_programmable {
            scale::scaled(c.green, lamp.green_level_count as u32)
        } else {
            0
        },
        blue: if lamp.is_programmable {
            scale::scaled(c.blue, lamp.blue_level_count as u32)
        } else {
            0
        },
        intensity: scale::scaled(c.intensity, lamp.intensity_level_count as u32),
    }
}

/// Each color on the scale of its own lamp, in the same order.
pub open spec fn scaled_colors(colors: Seq<LampColor>, lamps: Seq<LampAttributes>) -> Seq<
    LampColor,
> {
    colors.map_values(|c: LampColor| scaled_color(c, lamps[c.lamp_id as int]))
}

/// Scales each color to its lamp's level counts.
pub fn scale_colors(colors: &Vec<LampColor>, lamps: &Vec<LampAttributes>) -> (r: Vec<LampColor>)
    requires
        forall|i: int| 0 <= i < colors@.len() ==> (#[trigger] colors@[i]).lamp_id < lamps@.len(),
    ensures
        r@ == scaled_colors(colors@, lamps@),
{
    let mut r: Vec<LampColor> = Vec::with_capacity(colors.len());
    let mut n: usize = 0;
    while n < colors.len()
        invariant
            n <= colors@.len(),
            forall|i: int| 0 <= i < colors@.len() ==> (#[trigger] colors@[i]).lamp_id < lamps@.len(),
            r@ == scaled_colors(colors@.take(n as int), lamps@),
        decreases colors@.len() - n,
    {
        let c: LampColor = colors[n];
        let lamp: LampAttributes = lamps[c.lamp_id as usize];
        let intensity: u8 = scale::scale_u8(c.intensity, lamp.intensity_level_count as u32);
        let scaled: LampColor = if lamp.is_programmable {
            LampColor {
                lamp_id: c.lamp_id,
                red: scale::scale_u8(c.red, lamp.red_level_count as u32),
                green: scale::scale_u8(c.green, lamp.green_level_count as u32),
                blue: scale::scale_u8(c.blue, lamp.blue_level_count as u32),
                intensity,
            }
        } else {
            LampColor { lamp_id: c.lamp_id, red: 0, green: 0, blue: 0, intensity }
        };
        r.push(scaled);
        n = n + 1;
        assert(r@ =~= scaled_colors(colors@.take(n as int), lamps@));
    }
    assert(colors@.take(n as int) =~= colors@);
    r
}

/// No lamp is sent more than it can show: every value of a scaled color is within the level
/// count that its lamp declares for the channel, and FixedColor lamps are sent no color.
pub proof fn scaled_color_within_levels(c: LampColor, lamp: LampAttributes)
    ensures
        scaled_color(c, lamp).lamp_id == c.lamp_id,
        scaled_color(c, lamp).red <= lamp.red_level_count,
        scaled_color(c, lamp).green <= lamp.green_level_count,
        scaled_color(c, lamp).blue <= lamp.blue_level_count,
        scaled_color(c, lamp).intensity <= lamp.intensity_level_count,
        !lamp.is_programmable ==> scaled_color(c, lamp).red == 0 && scaled_color(c, lamp).green
            == 0 && scaled_color(c, lamp).blue == 0,
{
    scale::scaled_in_range(c.red, lamp.red_level_count as u32);
    scale::scaled_in_range(c.green, lamp.green_level_count as u32);
    scale::scaled_in_range(c.blue, lamp.blue_level_count as u32);
    scale::scaled_in_range(c.intensity, lamp.intensity_level_count as u32);
}

/// A uniform color is within the level counts of every lamp that takes part in a channel.
pub proof fn uniform_color_within_levels(
    value: u8,
    lamps: Seq<LampAttributes>,
    channel: Channel,
    i: int,
)
    requires
        0 <= i < lamps.len(),
        uses_channel(lamps[i], channel),
    ensures
        scale::scaled(value, level_limit(lamps, channel)) <= level_count(lamps[i], channel),
{
    level_limit_is_minimum(lamps, channel);
    scale::scaled_in_range(value, level_limit(lamps, channel));
}

/// A value on the scale of 0 to 255 and the same value on the scale of 0 to `top`: the nearest step
/// of the other scale, and the value itself where that scale is no coarser.
pub open spec fn same_share(value: u8, sent: u8, top: u8) -> bool {
    &&& top == 255 ==> sent == value
    &&& -255 < 2 * (255 * sent - value * top) < 255
}

proof fn scaled_is_the_same_share(value: u8, top: u8)
    ensures
        same_share(value, scale::scaled(value, top as u32), top),
{
    if top < 255 {
        scale::scaled_proportional(value, top as u32);
    } else {
        assert(value * top == 255 * value) by (nonlinear_arith)
            requires
                top == 255,
        ;
    }
}

/// A color reaches its lamp in proportion: every channel of a programmable lamp is the same share of
/// the lamp's levels as the color's value is of 255. A FixedColor lamp is sent no red, green or blue,
/// and its intensity in proportion.
pub proof fn lamps_get_their_share(c: LampColor, lamp: LampAttributes)
    ensures
        scaled_color(c, lamp).lamp_id == c.lamp_id,
        lamp.is_programmable ==> {
            &&& same_share(c.red, scaled_color(c, lamp).red, lamp.red_level_count)
            &&& same_share(c.green, scaled_color(c, lamp).green, lamp.green_level_count)
            &&& same_share(c.blue, scaled_color(c, lamp).blue, lamp.blue_level_count)
        },
        !lamp.is_programmable ==> {
            &&& scaled_color(c, lamp).red == 0
            &&& scaled_color(c, lamp).green == 0
            &&& scaled_color(c, lamp).blue == 0
        },
        same_share(c.intensity, scaled_color(c, lamp).intensity, lamp.intensity_level_count),
{
    scaled_is_the_same_share(c.red, lamp.red_level_count);
    scaled_is_the_same_share(c.green, lamp.green_level_count);
    scaled_is_the_same_share(c.blue, lamp.blue_level_count);
    scaled_is_the_same_share(c.intensity, lamp.intensity_level_count);
}

/// Scaling a list of colors keeps its length and its order, and every color goes by the levels of the
/// lamp that it is meant for.
pub proof fn every_color_goes_by_its_own_lamp(
    colors: Seq<LampColor>,
    lamps: Seq<LampAttributes>,
    i: int,
)
    requires
        0 <= i < colors.len(),
        colors[i].lamp_id < lamps.len(),
    ensures
        scaled_colors(colors, lamps).len() == colors.len(),
        ({
            let c = colors[i];
            let lamp = lamps[c.lamp_id as int];
            let sent = scaled_colors(colors, lamps)[i];
            &&& sent.lamp_id == c.lamp_id
            &&& lamp.is_programmable ==> {
                &&& same_share(c.red, sent.red, lamp.red_level_count)
                &&& same_share(c.green, sent.green, lamp.green_level_count)
                &&& same_share(c.blue, sent.blue, lamp.blue_level_count)
            }
            &&& !lamp.is_programmable ==> sent.red == 0 && sent.green == 0 && sent.blue == 0
            &&& same_share(c.intensity, sent.intensity, lamp.intensity_level_count)
        }),
{
    lamps_get_their_share(colors[i], lamps[colors[i].lamp_id as int]);
}

/// The limits of a uniform color: for red, green and blue the smallest level count of all
/// programmable lamps, for the intensity that of all lamps, and 255 where there is none.
pub proof fn limits_are_the_smallest_levels(lamps: Seq<LampAttributes>, i: int)
    ensures
        0 <= i < lamps.len() && lamps[i].is_programmable ==> {
            &&& level_limit(lamps, Channel::Red) <= lamps[i].red_level_count
            &&& level_limit(lamps, Channel::Green) <= lamps[i].green_level_count
            &&& level_limit(lamps, Channel::Blue) <= lamps[i].blue_level_count
        },
        0 <= i < lamps.len() ==> level_limit(lamps, Channel::Intensity)
            <= lamps[i].intensity_level_count,
        level_limit(lamps, Channel::Red) == 255 || exists|k: int|
            0 <= k < lamps.len() && (#[trigger] lamps[k]).is_programmable
                && lamps[k].red_level_count == level_limit(lamps, Channel::Red),
        level_limit(lamps, Channel::Green) == 255 || exists|k: int|
            0 <= k < lamps.len() && (#[trigger] lamps[k]).is_programmable
                && lamps[k].green_level_count == level_limit(lamps, Channel::Green),
        level_limit(lamps, Channel::Blue) == 255 || exists|k: int|
            0 <= k < lamps.len() && (#[trigger] lamps[k]).is_programmable
                && lamps[k].blue_level_count == level_limit(lamps, Channel::Blue),
        level_limit(lamps, Channel::Intensity) == 255 || exists|k: int|
            0 <= k < lamps.len() && (#[trigger] lamps[k]).intensity_level_count == level_limit(
                lamps,
                Channel::Intensity,
            ),
{
    level_limit_is_minimum(lamps, Channel::Red);
    level_limit_is_minimum(lamps, Channel::Green);
    level_limit_is_minimum(lamps, Channel::Blue);
    level_limit_is_minimum(lamps, Channel::Intensity);
    if 0 <= i < lamps.len() {
        assert(lamps[i] == lamps[i]);
    }
}

/// What a device reads out of a LampRangeUpdateReport: the lamps from 0 to `last`, the color, and that
/// the update is complete. Behind the fields the report is zero to its declared size.
pub proof fn range_reports_say_what_they_are_for(
    report_id: u8,
    size: nat,
    last: u16,
    red: u8,
    green: u8,
    blue: u8,
    intensity: u8,
)
    requires
        size >= 9,
    ensures
        ({
            let r = range_report(report_id, size, last, red, green, blue, intensity);
            &&& r.len() == size + 1
            &&& r[0] == report_id
            &&& r[1] % 2 == 1
            &&& r[1] == 1
            &&& r[2] + 0x100 * r[3] == 0
            &&& r[4] + 0x100 * r[5] == last
            &&& (r[6], r[7], r[8], r[9]) == (red, green, blue, intensity)
            &&& forall|k: int| 10 <= k < r.len() ==> r[k] == 0
        }),
{
}

/// What a device reads out of a LampArrayControlReport: AutonomousMode on or off, and nothing else.
pub proof fn control_reports_say_what_they_are_for(report_id: u8, size: nat, enabled: bool)
    requires
        size >= 1,
    ensures
        ({
            let r = control_report(report_id, size, enabled);
            &&& r.len() == size + 1
            &&& r[0] == report_id
            &&& enabled ==> r[1] == 1
            &&& !enabled ==> r[1] == 0
            &&& forall|k: int| 2 <= k < r.len() ==> r[k] == 0
        }),
{
}

/// What a device reads out of a LampAttributesRequestReport: the lamp, and nothing else. The request
/// that starts the sequence of all lamps has zeros throughout.
pub proof fn lamp_requests_say_what_they_are_for(report_id: u8, size: nat, index: u16)
    ensures
        size >= 2 ==> {
            let r = lamp_request(report_id, size, index);
            &&& r.len() == size + 1
            &&& r[0] == report_id
            &&& r[1] + 0x100 * r[2] == index
            &&& forall|k: int| 3 <= k < r.len() ==> r[k] == 0
        },
        ({
            let r = first_lamp_request(report_id, size);
            &&& r.len() == size + 1
            &&& r[0] == report_id
            &&& forall|k: int| 1 <= k < r.len() ==> r[k] == 0
        }),
{
}

proof fn the_first_out_of_range(colors: Seq<LampColor>, lamp_count: u16, i: int)
    requires
        0 <= i < colors.len(),
        colors[i].lamp_id >= lamp_count,
        forall|k: int| 0 <= k < i ==> (#[trigger] colors[k]).lamp_id < lamp_count,
    ensures
        first_out_of_range(colors, lamp_count) == Some(colors[i].lamp_id),
{
    let head = colors.take(i + 1);
    assert(head.drop_last() =~= colors.take(i));
    no_out_of_range(colors.take(i), lamp_count);
    assert(forall|k: int| 0 <= k < i ==> colors.take(i)[k] == #[trigger] colors[k]);
    assert(first_out_of_range(head, lamp_count) == Some(colors[i].lamp_id));
    first_out_of_range_stays(colors, i + 1, lamp_count);
}

proof fn the_first_duplicate(colors: Seq<LampColor>, i: int, j: int)
    requires
        0 <= i < j < colors.len(),
        colors[i].lamp_id == colors[j].lamp_id,
        forall|a: int, b: int|
            0 <= a < b < j ==> (#[trigger] colors[a]).lamp_id != (#[trigger] colors[b]).lamp_id,
    ensures
        first_duplicate(colors) == Some(colors[j].lamp_id),
{
    let head = colors.take(j + 1);
    let before = colors.take(j);
    assert(head.drop_last() =~= before);
    assert forall|a: int, b: int| 0 <= a < b < before.len() implies (#[trigger] before[a]).lamp_id
        != (#[trigger] before[b]).lamp_id by {
        assert(before[a] == colors[a] && before[b] == colors[b]);
    }
    no_duplicate(before);
    assert(before[i].lamp_id == colors[j].lamp_id);
    in_lamp_ids(before, colors[j].lamp_id);
    assert(first_duplicate(head) == Some(colors[j].lamp_id));
    first_duplicate_stays(colors, j + 1);
}

/// The error about lamp IDs names the first color that is meant for a lamp that is not there, with
/// the number of lamps; and where all lamps are there, the first color whose lamp has had one.
pub proof fn the_first_bad_id_is_named(colors: Seq<LampColor>, lamp_count: u16, i: int, j: int)
    ensures
        0 <= i < colors.len() && colors[i].lamp_id >= lamp_count && (forall|k: int|
            0 <= k < i ==> (#[trigger] colors[k]).lamp_id < lamp_count) ==> id_error(
            colors,
            lamp_count,
        ) == Some(
            ErrorView::LampIdOutOfRange { lamp_id: colors[i].lamp_id, lamp_count },
        ),
        0 <= i < j < colors.len() && colors[i].lamp_id == colors[j].lamp_id && (forall|k: int|
            0 <= k < colors.len() ==> (#[trigger] colors[k]).lamp_id < lamp_count) && (forall|
            a: int,
            b: int,
        |
            0 <= a < b < j ==> (#[trigger] colors[a]).lamp_id != (#[trigger] colors[b]).lamp_id)
            ==> id_error(colors, lamp_count) == Some(
            ErrorView::DuplicateLampId { lamp_id: colors[j].lamp_id },
        ),
{
    if 0 <= i < colors.len() && colors[i].lamp_id >= lamp_count && (forall|k: int|
        0 <= k < i ==> (#[trigger] colors[k]).lamp_id < lamp_count) {
        the_first_out_of_range(colors, lamp_count, i);
    }
    if 0 <= i < j < colors.len() && colors[i].lamp_id == colors[j].lamp_id && (forall|k: int|
        0 <= k < colors.len() ==> (#[trigger] colors[k]).lamp_id < lamp_count) && (forall|
        a: int,
        b: int,
    |
        0 <= a < b < j ==> (#[trigger] colors[a]).lamp_id != (#[trigger] colors[b]).lamp_id) {
        no_out_of_range(colors, lamp_count);
        the_first_duplicate(colors, i, j);
    }
}

} // verus!
