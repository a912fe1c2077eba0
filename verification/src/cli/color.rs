//! Colors on the command line.

use vstd::prelude::*;
use vstd::string::StrSliceExecFns;
use vstd::string::StringExecFns;

use crate::text;

verus! {

/// The color presets, each with its red, green and blue values.
pub open spec fn presets() -> Seq<(Seq<char>, (u8, u8, u8))> {
    seq![
        ("red"@, (255u8, 0u8, 0u8)),
        ("green"@, (0u8, 255u8, 0u8)),
        ("blue"@, (0u8, 0u8, 255u8)),
        ("white"@, (255u8, 255u8, 255u8)),
        ("cyan"@, (0u8, 255u8, 255u8)),
        ("yellow"@, (255u8, 255u8, 0u8)),
        ("orange"@, (255u8, 165u8, 0u8)),
        ("purple"@, (128u8, 0u8, 255u8)),
        ("pink"@, (255u8, 105u8, 180u8)),
        ("off"@, (0u8, 0u8, 0u8)),
    ]
}

/// How many presets there are.
pub const PRESET_COUNT: usize = 10;

/// One of the presets.
fn preset(i: usize) -> (p: (&'static str, (u8, u8, u8)))
    requires
        i < PRESET_COUNT,
    ensures
        (p.0@, p.1) == presets()[i as int],
{
    match i {
        0 => ("red", (255, 0, 0)),
        1 => ("green", (0, 255, 0)),
        2 => ("blue", (0, 0, 255)),
        3 => ("white", (255, 255, 255)),
        4 => ("cyan", (0, 255, 255)),
        5 => ("yellow", (255, 255, 0)),
        6 => ("orange", (255, 165, 0)),
        7 => ("purple", (128, 0, 255)),
        8 => ("pink", (255, 105, 180)),
        _ => ("off", (0, 0, 0)),
    }
}

/// The names of the first `n` presets, separated by commas.
pub open spec fn first_names(n: nat) -> Seq<char>
    decreases n,
{
    if n == 0 {
        Seq::empty()
    } else if n == 1 {
        presets()[0].0
    } else {
        first_names((n - 1) as nat) + ", "@ + presets()[n - 1].0
    }
}

/// The names of all presets, separated by commas.
pub open spec fn all_names() -> Seq<char> {
    first_names(presets().len())
}

/// The names of the color presets, as messages list them.
pub fn preset_names() -> (names: String)
    ensures
        names@ == all_names(),
{
    let mut names: String = preset(0).0.to_string();
    let mut i: usize = 1;
    while i < PRESET_COUNT
        invariant
            1 <= i <= PRESET_COUNT,
            names@ == first_names(i as nat),
        decreases PRESET_COUNT - i,
    {
        names.append(", ");
        names.append(preset(i).0);
        i = i + 1;
    }
    names
}

/// The first preset at or after `i` with this name.
pub open spec fn preset_from(name: Seq<char>, i: int) -> Option<(u8, u8, u8)>
    decreases presets().len() - i,
{
    if i >= presets().len() {
        None
    } else if presets()[i].0 == name {
        Some(presets()[i].1)
    } else {
        preset_from(name, i + 1)
    }
}

/// The preset with this name.
pub open spec fn preset_named(name: Seq<char>) -> Option<(u8, u8, u8)> {
    preset_from(name, 0)
}

/// The color of the preset with this name, which is taken letter by letter.
pub fn exact_preset(name: &String) -> (rgb: Option<(u8, u8, u8)>)
    ensures
        rgb == preset_named(name@),
{
    let mut i: usize = 0;
    while i < PRESET_COUNT
        invariant
            i <= PRESET_COUNT,
            preset_named(name@) == preset_from(name@, i as int),
        decreases PRESET_COUNT - i,
    {
        let (n, rgb) = preset(i);
        if n.to_string() == *name {
            return Some(rgb);
        }
        i = i + 1;
    }
    None
}

/// An ASCII capital as the small letter, and every other character as it is.
pub open spec fn ascii_lower_char(c: char) -> char {
    if 'A' <= c <= 'Z' {
        (c as u32 + 32) as char
    } else {
        c
    }
}

/// A text with its ASCII capitals as small letters.
pub open spec fn ascii_lower(s: Seq<char>) -> Seq<char> {
    s.map_values(|c: char| ascii_lower_char(c))
}

/// What `str::to_lowercase` makes of a text, by Unicode's rules.
pub uninterp spec fn lowercase(s: Seq<char>) -> Seq<char>;

/// A text in lower case, by `str::to_lowercase` of std.
///
/// The result is what Unicode's lower-case mapping makes of the text. Of a text that is all ASCII
/// it is claimed that the capitals become small letters and all else stays; of other texts nothing
/// is claimed but that the result depends on the text alone.
#[verifier::external_body]
fn to_lowercase(s: &str) -> (lower: String)
    ensures
        lower@ == lowercase(s@),
        vstd::utf8::is_ascii_chars(s@) ==> lower@ == ascii_lower(s@),
{
    s.to_lowercase()
}

/// Finds a color preset by its name, in upper or lower case.
pub fn find_preset(name: &str) -> (rgb: Option<(u8, u8, u8)>)
    ensures
        rgb == preset_named(lowercase(name@)),
        vstd::utf8::is_ascii_chars(name@) ==> rgb == preset_named(ascii_lower(name@)),
{
    exact_preset(&to_lowercase(name))
}

/// A text without a number sign at its start.
pub open spec fn without_sign(s: Seq<char>) -> Seq<char> {
    if s.len() > 0 && s[0] == '#' {
        s.skip(1)
    } else {
        s
    }
}

/// A color from three numbers, if they are there.
pub open spec fn color_from(r: Option<nat>, g: Option<nat>, b: Option<nat>) -> Option<(u8, u8, u8)> {
    match (r, g, b) {
        (Some(r), Some(g), Some(b)) => Some((r as u8, g as u8, b as u8)),
        _ => None,
    }
}

/// A color from a code of six hexadecimal digits, two for each value.
pub open spec fn hex_color(s: Seq<char>) -> Option<(u8, u8, u8)> {
    if s.len() == 6 {
        color_from(
            text::digits_value(s.subrange(0, 2), 16),
            text::digits_value(s.subrange(2, 4), 16),
            text::digits_value(s.subrange(4, 6), 16),
        )
    } else {
        None
    }
}

/// A color from three decimal numbers.
pub open spec fn decimal_color(r: Seq<char>, g: Seq<char>, b: Seq<char>) -> Option<(u8, u8, u8)> {
    color_from(text::number(r, 10, 255), text::number(g, 10, 255), text::number(b, 10, 255))
}

/// The color that arguments give: the preset that is named, or else a hex code; or three decimal
/// numbers. `named` is what the preset lookup of the first argument found.
pub open spec fn color_of(args: Seq<Seq<char>>, named: Option<(u8, u8, u8)>) -> Option<
    (u8, u8, u8),
> {
    if args.len() == 1 {
        if named is Some {
            named
        } else {
            hex_color(without_sign(args[0]))
        }
    } else if args.len() == 3 {
        decimal_color(args[0], args[1], args[2])
    } else {
        None
    }
}

/// Reads a color from a hex code, with or without a number sign before it.
pub fn parse_hex_color(name: &str) -> (rgb: Option<(u8, u8, u8)>)
    ensures
        rgb == hex_color(without_sign(name@)),
{
    let n: usize = name.unicode_len();
    let s: &str = if n > 0 && name.get_char(0) == '#' {
        name.substring_char(1, n)
    } else {
        name
    };
    assert(s@ =~= without_sign(name@));
    if s.unicode_len() == 6 {
        let r = text::parse_hex2(s.substring_char(0, 2));
        let g = text::parse_hex2(s.substring_char(2, 4));
        let b = text::parse_hex2(s.substring_char(4, 6));
        if let (Some(r), Some(g), Some(b)) = (r, g, b) {
            return Some((r, g, b));
        }
    }
    None
}

/// Reads a color from three decimal numbers.
pub fn parse_decimal_color(r: &str, g: &str, b: &str) -> (rgb: Option<(u8, u8, u8)>)
    ensures
        rgb == decimal_color(r@, g@, b@),
{
    let r = text::parse_number(r, 10, 255);
    let g = text::parse_number(g, 10, 255);
    let b = text::parse_number(b, 10, 255);
    if let (Some(r), Some(g), Some(b)) = (r, g, b) {
        Some((r as u8, g as u8, b as u8))
    } else {
        None
    }
}

/// The color that arguments give, with the result of the preset lookup of the first of them.
pub fn choose_color(args: &[String], named: Option<(u8, u8, u8)>) -> (rgb: Option<(u8, u8, u8)>)
    ensures
        rgb == color_of(text::texts_view(args@), named),
{
    if args.len() == 1 {
        if named.is_some() {
            return named;
        }
        return parse_hex_color(args[0].as_str());
    } else if args.len() == 3 {
        return parse_decimal_color(args[0].as_str(), args[1].as_str(), args[2].as_str());
    }
    None
}

/// Parse color from CLI arguments.
///
/// Accepts:
///   - Preset name: "red", "blue", etc.
///   - Three decimal values: "255" "100" "0"
///   - Six-character hex string: "ff6400" or "#ff6400"
pub fn parse_color(args: &[String]) -> (rgb: Option<(u8, u8, u8)>)
    ensures
        rgb == color_of(
            text::texts_view(args@),
            if args@.len() == 1 {
                preset_named(lowercase(args@[0]@))
            } else {
                None
            },
        ),
        args@.len() == 1 && vstd::utf8::is_ascii_chars(args@[0]@) ==> rgb == color_of(
            text::texts_view(args@),
            preset_named(ascii_lower(args@[0]@)),
        ),
{
    let named = if args.len() == 1 {
        find_preset(args[0].as_str())
    } else {
        None
    };
    choose_color(args, named)
}

/// The length and the first letter of a name.
spec fn key(name: Seq<char>) -> (nat, char) {
    (name.len(), name[0])
}

/// The presets differ in length or first letter.
proof fn preset_keys()
    ensures
        key(presets()[0].0) == (3nat, 'r'),
        key(presets()[1].0) == (5nat, 'g'),
        key(presets()[2].0) == (4nat, 'b'),
        key(presets()[3].0) == (5nat, 'w'),
        key(presets()[4].0) == (4nat, 'c'),
        key(presets()[5].0) == (6nat, 'y'),
        key(presets()[6].0) == (6nat, 'o'),
        key(presets()[7].0) == (6nat, 'p'),
        key(presets()[8].0) == (4nat, 'p'),
        key(presets()[9].0) == (3nat, 'o'),
{
    reveal_strlit("red");
    reveal_strlit("green");
    reveal_strlit("blue");
    reveal_strlit("white");
    reveal_strlit("cyan");
    reveal_strlit("yellow");
    reveal_strlit("orange");
    reveal_strlit("purple");
    reveal_strlit("pink");
    reveal_strlit("off");
}

proof fn preset_is_found(i: int)
    requires
        0 <= i < presets().len(),
    ensures
        preset_named(presets()[i].0) == Some(presets()[i].1),
{
    preset_keys();
    assert forall|j: int| 0 <= j < i implies (#[trigger] presets()[j]).0 != presets()[i].0 by {
        assert(key(presets()[j].0) != key(presets()[i].0));
    }
    let name = presets()[i].0;
    preset_is_first(name, 0, i);
}

proof fn preset_is_first(name: Seq<char>, k: int, i: int)
    requires
        0 <= k <= i < presets().len(),
        presets()[i].0 == name,
        forall|j: int| k <= j < i ==> (#[trigger] presets()[j]).0 != name,
    ensures
        preset_from(name, k) == Some(presets()[i].1),
    decreases i - k,
{
    if k < i {
        assert(presets()[k].0 != name);
        preset_is_first(name, k + 1, i);
    }
}

/// A preset is found by its name in any mixture of capitals and small letters.
pub proof fn presets_in_any_case(i: int, name: Seq<char>)
    requires
        0 <= i < presets().len(),
        ascii_lower(name) == presets()[i].0,
    ensures
        color_of(seq![name], preset_named(ascii_lower(name))) == Some(presets()[i].1),
{
    preset_is_found(i);
}

/// The code of a color: two hexadecimal digits for each value.
pub open spec fn hex_code(r: u8, g: u8, b: u8) -> Seq<char> {
    text::hex2(r) + text::hex2(g) + text::hex2(b)
}

/// A name without the length and first letter of a preset is none.
proof fn no_preset_from(name: Seq<char>, i: int)
    requires
        0 <= i <= presets().len(),
        forall|j: int| i <= j < presets().len() ==> key((#[trigger] presets()[j]).0) != key(name),
    ensures
        preset_from(name, i) is None,
    decreases presets().len() - i,
{
    if i < presets().len() {
        assert(key(presets()[i].0) != key(name));
        no_preset_from(name, i + 1);
    }
}

proof fn hex_codes_are_not_presets(r: u8, g: u8, b: u8)
    ensures
        preset_named(ascii_lower(hex_code(r, g, b))) is None,
        preset_named(ascii_lower(seq!['#'] + hex_code(r, g, b))) is None,
{
    preset_keys();
    let code = ascii_lower(hex_code(r, g, b));
    let signed = ascii_lower(seq!['#'] + hex_code(r, g, b));
    assert(code.len() == 6 && signed.len() == 7);
    assert(code[0] == text::digit((r / 16) as nat));
    no_preset_from(code, 0);
    no_preset_from(signed, 0);
}

/// Every color is had by its hex code, with and without a number sign.
pub proof fn hex_codes_are_read_back(r: u8, g: u8, b: u8)
    ensures
        ({
            let code = hex_code(r, g, b);
            let signed = seq!['#'] + code;
            &&& color_of(seq![code], preset_named(ascii_lower(code))) == Some((r, g, b))
            &&& color_of(seq![signed], preset_named(ascii_lower(signed))) == Some((r, g, b))
        }),
{
    let code = hex_code(r, g, b);
    hex_codes_are_not_presets(r, g, b);
    assert(code.subrange(0, 2) =~= text::hex2(r));
    assert(code.subrange(2, 4) =~= text::hex2(g));
    assert(code.subrange(4, 6) =~= text::hex2(b));
    text::hex2_is_read_back(r);
    text::hex2_is_read_back(g);
    text::hex2_is_read_back(b);
    assert(without_sign(code) == code);
    assert(without_sign(seq!['#'] + code) =~= code);
}

/// Every color is had by its three values in decimal.
pub proof fn decimal_colors_are_read_back(r: u8, g: u8, b: u8)
    ensures
        color_of(
            seq![text::decimal(r as nat), text::decimal(g as nat), text::decimal(b as nat)],
            None,
        ) == Some((r, g, b)),
{
    text::decimal_is_read_back(r as nat, 255);
    text::decimal_is_read_back(g as nat, 255);
    text::decimal_is_read_back(b as nat, 255);
}

/// A code that holds anything but hexadecimal digits, a plus sign included, makes no color.
pub proof fn codes_are_digits(code: Seq<char>, i: int)
    requires
        code.len() == 6,
        0 <= i < 6,
        text::digit_value(code[i], 16) is None,
    ensures
        hex_color(code) is None,
{
    let pair = code.subrange(i / 2 * 2, i / 2 * 2 + 2);
    assert(pair[i % 2] == code[i]);
    assert(pair.drop_last().last() == pair[0]);
    reveal_with_fuel(text::digits_value, 3);
    assert(text::digits_value(pair, 16) is None);
}

/// Neither none nor two nor more than three arguments make a color.
pub proof fn other_counts_make_no_color(args: Seq<Seq<char>>, named: Option<(u8, u8, u8)>)
    requires
        args.len() != 1,
        args.len() != 3,
    ensures
        color_of(args, named) is None,
{
}

/// A hex code is read two digits at a time, red, green and blue, in capitals or small letters and with
/// or without a number sign; any other character in it, and any other length, makes no color.
pub proof fn hex_codes_spell_the_color(code: Seq<char>)
    requires
        code.len() > 0 ==> code[0] != '#',
    ensures
        ({
            let h = |i: int| text::hex_digit(code[i]);
            let rgb = color_of(seq![code], None);
            &&& color_of(seq![seq!['#'] + code], None) == rgb
            &&& code.len() != 6 ==> rgb is None
            &&& code.len() == 6 ==> if h(0) >= 0 && h(1) >= 0 && h(2) >= 0 && h(3) >= 0 && h(4) >= 0
                && h(5) >= 0 {
                rgb matches Some((r, g, b)) && r == 16 * h(0) + h(1) && g == 16 * h(2) + h(3) && b
                    == 16 * h(4) + h(5)
            } else {
                rgb is None
            }
        }),
{
    assert((seq!['#'] + code).skip(1) =~= code);
    if code.len() == 6 {
        text::hex_digits_make_a_byte(code.subrange(0, 2));
        text::hex_digits_make_a_byte(code.subrange(2, 4));
        text::hex_digits_make_a_byte(code.subrange(4, 6));
    }
}

/// Only one number sign is taken off.
pub proof fn one_sign_is_enough(code: Seq<char>)
    ensures
        color_of(seq![seq!['#', '#'] + code], None) is None,
{
    let s = seq!['#', '#'] + code;
    let rest = s.skip(1);
    assert(rest[0] == '#');
    if rest.len() == 6 {
        text::hex_digits_make_a_byte(rest.subrange(0, 2));
    }
}

/// Three arguments are red, green and blue, each a decimal number up to 255, and what the first one
/// would be the name of makes no difference.
pub proof fn three_numbers_are_red_green_blue(
    r: Seq<char>,
    g: Seq<char>,
    b: Seq<char>,
    named: Option<(u8, u8, u8)>,
)
    ensures
        match (text::number(r, 10, 255), text::number(g, 10, 255), text::number(b, 10, 255)) {
            (Some(red), Some(green), Some(blue)) => color_of(seq![r, g, b], named) == Some(
                (red as u8, green as u8, blue as u8),
            ),
            _ => color_of(seq![r, g, b], named) is None,
        },
{
}

/// A name comes before a code.
pub proof fn names_come_first(s: Seq<char>, rgb: (u8, u8, u8))
    ensures
        color_of(seq![s], Some(rgb)) == Some(rgb),
{
}

proof fn no_other_preset(name: Seq<char>, i: int)
    requires
        0 <= i <= presets().len(),
        forall|j: int| i <= j < presets().len() ==> (#[trigger] presets()[j]).0 != name,
    ensures
        preset_from(name, i) is None,
    decreases presets().len() - i,
{
    if i < presets().len() {
        assert(presets()[i].0 != name);
        no_other_preset(name, i + 1);
    }
}

/// The presets, and no other name is one.
pub proof fn presets_are_these(name: Seq<char>)
    ensures
        preset_named("red"@) == Some((255u8, 0u8, 0u8)),
        preset_named("green"@) == Some((0u8, 255u8, 0u8)),
        preset_named("blue"@) == Some((0u8, 0u8, 255u8)),
        preset_named("white"@) == Some((255u8, 255u8, 255u8)),
        preset_named("cyan"@) == Some((0u8, 255u8, 255u8)),
        preset_named("yellow"@) == Some((255u8, 255u8, 0u8)),
        preset_named("orange"@) == Some((255u8, 165u8, 0u8)),
        preset_named("purple"@) == Some((128u8, 0u8, 255u8)),
        preset_named("pink"@) == Some((255u8, 105u8, 180u8)),
        preset_named("off"@) == Some((0u8, 0u8, 0u8)),
        name != "red"@ && name != "green"@ && name != "blue"@ && name != "white"@ && name
            != "cyan"@ && name != "yellow"@ && name != "orange"@ && name != "purple"@ && name
            != "pink"@ && name != "off"@ ==> preset_named(name) is None,
        all_names() == "red"@ + ", "@ + "green"@ + ", "@ + "blue"@ + ", "@ + "white"@ + ", "@
            + "cyan"@ + ", "@ + "yellow"@ + ", "@ + "orange"@ + ", "@ + "purple"@ + ", "@ + "pink"@
            + ", "@ + "off"@,
{
    preset_is_found(0);
    preset_is_found(1);
    preset_is_found(2);
    preset_is_found(3);
    preset_is_found(4);
    preset_is_found(5);
    preset_is_found(6);
    preset_is_found(7);
    preset_is_found(8);
    preset_is_found(9);
    if name != "red"@ && name != "green"@ && name != "blue"@ && name != "white"@ && name
        != "cyan"@ && name != "yellow"@ && name != "orange"@ && name != "purple"@ && name
        != "pink"@ && name != "off"@ {
        no_other_preset(name, 0);
    }
    reveal_with_fuel(first_names, 11);
}

/// Only the capitals of ASCII have a small letter, 32 places further on.
pub proof fn capitals_become_small(s: Seq<char>, i: int)
    requires
        0 <= i < s.len(),
    ensures
        ascii_lower(s).len() == s.len(),
        'A' <= s[i] <= 'Z' ==> ascii_lower(s)[i] as int == s[i] as int + 32,
        !('A' <= s[i] <= 'Z') ==> ascii_lower(s)[i] == s[i],
{
}

} // verus!
