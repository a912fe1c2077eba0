//! Numbers and lines in text.

use vstd::prelude::*;
use vstd::string::StringExecFns;

verus! {

/// Texts as sequences of characters.
pub open spec fn texts_view(texts: Seq<String>) -> Seq<Seq<char>> {
    texts.map_values(|s: String| s@)
}

/// Whether two texts are the same.
pub fn same(a: &str, b: &str) -> (r: bool)
    ensures
        r == (a@ == b@),
{
    a.to_string() == b.to_string()
}

/// The character of a decimal or hexadecimal digit.
pub open spec fn digit(d: nat) -> char {
    if d < 10 {
        ('0' as u32 + d) as char
    } else {
        ('a' as u32 + d - 10) as char
    }
}

/// A number in decimal, without leading zeros.
pub open spec fn decimal(n: nat) -> Seq<char>
    decreases n,
{
    if n < 10 {
        seq![digit(n)]
    } else {
        decimal(n / 10).push(digit(n % 10))
    }
}

/// A byte as two hexadecimal digits.
pub open spec fn hex2(b: u8) -> Seq<char> {
    seq![digit((b / 16) as nat), digit((b % 16) as nat)]
}

/// The text of one digit.
fn digit_text(d: u8) -> (s: &'static str)
    requires
        d < 16,
    ensures
        s@ == seq![digit(d as nat)],
{
    proof {
        reveal_strlit("0");
        reveal_strlit("1");
        reveal_strlit("2");
        reveal_strlit("3");
        reveal_strlit("4");
        reveal_strlit("5");
        reveal_strlit("6");
        reveal_strlit("7");
        reveal_strlit("8");
        reveal_strlit("9");
        reveal_strlit("a");
        reveal_strlit("b");
        reveal_strlit("c");
        reveal_strlit("d");
        reveal_strlit("e");
        reveal_strlit("f");
    }
    match d {
        0 => "0",
        1 => "1",
        2 => "2",
        3 => "3",
        4 => "4",
        5 => "5",
        6 => "6",
        7 => "7",
        8 => "8",
        9 => "9",
        10 => "a",
        11 => "b",
        12 => "c",
        13 => "d",
        14 => "e",
        _ => "f",
    }
}

/// Writes a number in decimal.
pub fn decimal_text(n: u64) -> (s: String)
    ensures
        s@ == decimal(n as nat),
    decreases n,
{
    let mut s: String = if n < 10 {
        String::new()
    } else {
        decimal_text(n / 10)
    };
    s.append(digit_text((n % 10) as u8));
    s
}

/// Writes a byte as two hexadecimal digits.
pub fn hex2_text(b: u8) -> (s: String)
    ensures
        s@ == hex2(b),
{
    let mut s: String = String::new();
    s.append(digit_text(b / 16));
    s.append(digit_text(b % 16));
    assert(s@ =~= hex2(b));
    s
}

/// The value of a digit, upper or lower case, in the given radix.
pub open spec fn digit_value(c: char, radix: nat) -> Option<nat> {
    let v = if '0' <= c <= '9' {
        c as int - '0' as int
    } else if 'a' <= c <= 'z' {
        c as int - 'a' as int + 10
    } else if 'A' <= c <= 'Z' {
        c as int - 'A' as int + 10
    } else {
        36
    };
    if v < radix {
        Some(v as nat)
    } else {
        None
    }
}

/// The number that a sequence of digits spells, if all of them are digits.
pub open spec fn digits_value(s: Seq<char>, radix: nat) -> Option<nat>
    decreases s.len(),
{
    if s.len() == 0 {
        Some(0)
    } else {
        match (digits_value(s.drop_last(), radix), digit_value(s.last(), radix)) {
            (Some(high), Some(low)) => Some(high * radix + low),
            _ => None,
        }
    }
}

/// The digits of a number: what follows an optional plus sign.
pub open spec fn unsigned_part(s: Seq<char>) -> Seq<char> {
    if s.len() > 0 && s[0] == '+' {
        s.skip(1)
    } else {
        s
    }
}

/// The number that a text spells: at least one digit, after an optional plus sign, and not above
/// `max`.
pub open spec fn number(s: Seq<char>, radix: nat, max: nat) -> Option<nat> {
    if unsigned_part(s).len() == 0 {
        None
    } else {
        match digits_value(unsigned_part(s), radix) {
            Some(v) if v <= max => Some(v),
            _ => None,
        }
    }
}

/// The characters of a text.
pub fn chars_of(s: &str) -> (chars: Vec<char>)
    ensures
        chars@ == s@,
{
    let mut chars: Vec<char> = Vec::new();
    for c in it: s.chars()
        invariant
            chars@ == it.seq().take(it.index() as int),
    {
        chars.push(c);
    }
    chars
}

/// The value of a digit in the given radix.
fn read_digit(c: char, radix: u32) -> (v: Option<u32>)
    requires
        radix <= 36,
    ensures
        match v {
            Some(d) => digit_value(c, radix as nat) == Some(d as nat) && d < radix,
            None => digit_value(c, radix as nat) is None,
        },
{
    let d: u32 = if '0' <= c && c <= '9' {
        c as u32 - '0' as u32
    } else if 'a' <= c && c <= 'z' {
        c as u32 - 'a' as u32 + 10
    } else if 'A' <= c && c <= 'Z' {
        c as u32 - 'A' as u32 + 10
    } else {
        36
    };
    if d < radix {
        Some(d)
    } else {
        None
    }
}

/// More digits do not make a number smaller.
proof fn digits_grow(s: Seq<char>, radix: nat, k: int)
    requires
        0 <= k <= s.len(),
        radix > 0,
        digits_value(s, radix) is Some,
    ensures
        digits_value(s.take(k), radix) is Some,
        digits_value(s.take(k), radix)->0 <= digits_value(s, radix)->0,
    decreases s.len(),
{
    if k == s.len() {
        assert(s.take(k) =~= s);
    } else {
        digits_grow(s.drop_last(), radix, k);
        assert(s.drop_last().take(k) =~= s.take(k));
        let high = digits_value(s.drop_last(), radix)->0;
        assert(high <= high * radix) by (nonlinear_arith)
            requires
                radix > 0,
        ;
    }
}

/// Reads the digits from `start` on, as a number not above `max`.
fn read_digits(chars: &Vec<char>, start: usize, radix: u32, max: u32) -> (r: Option<u32>)
    requires
        2 <= radix <= 36,
        start <= chars@.len(),
    ensures
        match r {
            Some(v) => v <= max && digits_value(chars@.skip(start as int), radix as nat) == Some(
                v as nat,
            ),
            None => match digits_value(chars@.skip(start as int), radix as nat) {
                Some(v) => v > max,
                None => true,
            },
        },
{
    let ghost digits = chars@.skip(start as int);
    let n: usize = chars.len();
    let mut value: u32 = 0;
    let mut i: usize = start;
    while i < n
        invariant
            start <= i <= n,
            n == chars@.len(),
            digits == chars@.skip(start as int),
            2 <= radix <= 36,
            value <= max,
            digits_value(digits.take(i - start), radix as nat) == Some(value as nat),
        decreases n - i,
    {
        proof {
            assert(digits.take(i + 1 - start).drop_last() =~= digits.take(i - start));
            assert(digits.take(i + 1 - start).last() == chars@[i as int]);
            if digits_value(digits, radix as nat) is Some {
                digits_grow(digits, radix as nat, i + 1 - start);
            }
        }
        match read_digit(chars[i], radix) {
            None => {
                return None;
            },
            Some(d) => {
                assert(value * radix <= 0xFFFF_FFFF * 36) by (nonlinear_arith)
                    requires
                        value <= 0xFFFF_FFFF,
                        radix <= 36,
                ;
                let next: u64 = value as u64 * radix as u64 + d as u64;
                if next > max as u64 {
                    return None;
                }
                value = next as u32;
            },
        }
        i = i + 1;
    }
    assert(digits.take(n - start) =~= digits);
    Some(value)
}

/// Reads a number: digits after an optional plus sign, not above `max`.
pub fn parse_number(s: &str, radix: u32, max: u32) -> (r: Option<u32>)
    requires
        2 <= radix <= 36,
    ensures
        match r {
            Some(v) => number(s@, radix as nat, max as nat) == Some(v as nat),
            None => number(s@, radix as nat, max as nat) is None,
        },
{
    let chars: Vec<char> = chars_of(s);
    let n: usize = chars.len();
    let start: usize = if n > 0 && chars[0] == '+' {
        1
    } else {
        0
    };
    assert(unsigned_part(s@) =~= s@.skip(start as int));
    if start == n {
        return None;
    }
    read_digits(&chars, start, radix, max)
}

/// Two hexadecimal digits are at most 255.
proof fn hex2_is_a_byte(s: Seq<char>)
    requires
        s.len() == 2,
    ensures
        digits_value(s, 16) matches Some(v) ==> v <= 255,
{
    assert(s.drop_last().drop_last() =~= Seq::<char>::empty());
    reveal_with_fuel(digits_value, 3);
}

/// Reads a byte from two hexadecimal digits.
pub fn parse_hex2(s: &str) -> (r: Option<u8>)
    requires
        s@.len() == 2,
    ensures
        match r {
            Some(v) => digits_value(s@, 16) == Some(v as nat),
            None => digits_value(s@, 16) is None,
        },
{
    let chars: Vec<char> = chars_of(s);
    assert(chars@.skip(0) =~= s@);
    proof {
        hex2_is_a_byte(s@);
    }
    match read_digits(&chars, 0, 16, 255) {
        Some(v) => Some(v as u8),
        None => None,
    }
}

proof fn decimal_is_digits(n: nat)
    ensures
        decimal(n).len() > 0,
        decimal(n)[0] != '+',
        digits_value(decimal(n), 10) == Some(n),
    decreases n,
{
    if n < 10 {
        assert(decimal(n).drop_last() =~= Seq::<char>::empty());
        assert(decimal(n).last() == digit(n));
        assert(digits_value(Seq::<char>::empty(), 10) == Some(0nat));
    } else {
        decimal_is_digits(n / 10);
        assert(decimal(n).drop_last() =~= decimal(n / 10));
        assert(decimal(n).last() == digit(n % 10));
    }
}

/// A number written in decimal is read back.
pub proof fn decimal_is_read_back(n: nat, max: nat)
    requires
        n <= max,
    ensures
        number(decimal(n), 10, max) == Some(n),
{
    decimal_is_digits(n);
}

/// A byte written as two hexadecimal digits is read back.
pub proof fn hex2_is_read_back(b: u8)
    ensures
        digits_value(hex2(b), 16) == Some(b as nat),
{
    let s = hex2(b);
    assert(s.drop_last() =~= seq![s[0]]);
    assert(s.drop_last().drop_last() =~= Seq::<char>::empty());
    reveal_with_fuel(digits_value, 3);
}

/// All characters of a number in decimal are digits.
pub proof fn decimal_has_digits(n: nat)
    ensures
        decimal(n).len() > 0,
        forall|i: int| 0 <= i < decimal(n).len() ==> '0' <= #[trigger] decimal(n)[i] <= '9',
    decreases n,
{
    if n >= 10 {
        decimal_has_digits(n / 10);
    }
}

/// The number that decimal digits stand for: each digit ten times as much as the next.
pub open spec fn spelled(s: Seq<char>) -> int
    decreases s.len(),
{
    if s.len() == 0 {
        0
    } else {
        spelled(s.drop_last()) * 10 + (s.last() as int - 48)
    }
}

/// A number in decimal: digits only, which stand for the number, and no zero before others.
pub proof fn decimal_spells_its_number(n: nat)
    ensures
        decimal(n).len() > 0,
        forall|i: int| 0 <= i < decimal(n).len() ==> '0' <= #[trigger] decimal(n)[i] <= '9',
        decimal(n).len() > 1 ==> decimal(n)[0] != '0',
        spelled(decimal(n)) == n,
    decreases n,
{
    if n < 10 {
        assert(decimal(n).drop_last() =~= Seq::<char>::empty());
        assert(spelled(Seq::<char>::empty()) == 0);
    } else {
        decimal_spells_its_number(n / 10);
        decimal_has_digits(n);
        assert(decimal(n).drop_last() =~= decimal(n / 10));
        assert(decimal(n).last() == digit(n % 10));
        if n / 10 < 10 {
            assert(decimal(n)[0] == digit(n / 10));
        } else {
            reveal_with_fuel(decimal, 2);
        }
    }
}

proof fn digits_spell(s: Seq<char>)
    requires
        forall|i: int| 0 <= i < s.len() ==> '0' <= #[trigger] s[i] <= '9',
    ensures
        spelled(s) >= 0,
        digits_value(s, 10) == Some(spelled(s) as nat),
    decreases s.len(),
{
    if s.len() > 0 {
        let rest = s.drop_last();
        assert forall|i: int| 0 <= i < rest.len() implies '0' <= #[trigger] rest[i] <= '9' by {
            assert(rest[i] == s[i]);
        }
        digits_spell(rest);
        assert('0' <= s[s.len() - 1] <= '9');
    }
}

proof fn others_spell_nothing(s: Seq<char>, i: int)
    requires
        0 <= i < s.len(),
        s[i] < '0' || s[i] > '9',
    ensures
        digits_value(s, 10) is None,
    decreases s.len(),
{
    if i < s.len() - 1 {
        others_spell_nothing(s.drop_last(), i);
    }
}

/// The number that a text gives in decimal: what its digits stand for, if that is not above the
/// maximum, with or without a plus sign before them.
pub proof fn digits_make_a_number(digits: Seq<char>, max: nat)
    requires
        digits.len() > 0,
        forall|i: int| 0 <= i < digits.len() ==> '0' <= #[trigger] digits[i] <= '9',
    ensures
        0 <= spelled(digits) <= max ==> number(digits, 10, max) == Some(spelled(digits) as nat),
        spelled(digits) > max ==> number(digits, 10, max) is None,
        number(seq!['+'] + digits, 10, max) == number(digits, 10, max),
{
    digits_spell(digits);
    assert('0' <= digits[0]);
    assert((seq!['+'] + digits).skip(1) =~= digits);
}

/// A text without a digit, or with anything but digits behind a plus sign at its start, is no
/// number.
pub proof fn other_texts_are_no_numbers(s: Seq<char>, max: nat, i: int)
    requires
        s.len() == 0 || s == seq!['+'] || (0 <= i < s.len() && (s[i] < '0' || s[i] > '9') && !(i
            == 0 && s[i] == '+')),
    ensures
        number(s, 10, max) is None,
{
    if s.len() > 0 && s != seq!['+'] {
        if s[0] == '+' {
            assert(s.skip(1)[i - 1] == s[i]);
            others_spell_nothing(s.skip(1), i - 1);
        } else {
            others_spell_nothing(s, i);
        }
    } else if s.len() > 0 {
        assert(s.skip(1).len() == 0);
    }
}

/// The value of a hexadecimal digit, and -1 for every other character.
pub open spec fn hex_digit(c: char) -> int {
    if '0' <= c <= '9' {
        c as int - 48
    } else if 'a' <= c <= 'f' {
        c as int - 97 + 10
    } else if 'A' <= c <= 'F' {
        c as int - 65 + 10
    } else {
        -1
    }
}

/// Two hexadecimal digits, in capitals or small letters, make a byte, the first one sixteen times as
/// much as the second; two other characters make none.
pub proof fn hex_digits_make_a_byte(s: Seq<char>)
    requires
        s.len() == 2,
    ensures
        hex_digit(s[0]) >= 0 && hex_digit(s[1]) >= 0 ==> digits_value(s, 16) == Some(
            (16 * hex_digit(s[0]) + hex_digit(s[1])) as nat,
        ),
        hex_digit(s[0]) < 0 || hex_digit(s[1]) < 0 ==> digits_value(s, 16) is None,
{
    assert(s.drop_last().last() == s[0]);
    assert(s.drop_last().drop_last() =~= Seq::<char>::empty());
    reveal_with_fuel(digits_value, 3);
}

/// A byte as two hexadecimal digits in small letters.
pub proof fn hex2_spells_its_byte(b: u8)
    ensures
        hex2(b).len() == 2,
        16 * hex_digit(hex2(b)[0]) + hex_digit(hex2(b)[1]) == b,
        forall|i: int|
            0 <= i < 2 ==> '0' <= #[trigger] hex2(b)[i] <= '9' || 'a' <= hex2(b)[i] <= 'f',
{
}

} // verus!
