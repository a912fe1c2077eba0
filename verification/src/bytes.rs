//! Little-endian integers in byte sequences.

use vstd::prelude::*;

verus! {

/// The unsigned 16-bit integer stored low byte first at `i`.
pub open spec fn le16(b: Seq<u8>, i: int) -> u16 {
    (b[i] + 0x100 * b[i + 1]) as u16
}

/// The unsigned 32-bit integer stored low byte first at `i`.
pub open spec fn le32(b: Seq<u8>, i: int) -> u32 {
    (b[i] + 0x100 * b[i + 1] + 0x1_0000 * b[i + 2] + 0x100_0000 * b[i + 3]) as u32
}

/// The unsigned integer that all of `b` spells, low byte first.
pub open spec fn le_value(b: Seq<u8>) -> nat
    decreases b.len(),
{
    if b.len() == 0 {
        0
    } else {
        b[0] as nat + 0x100 * le_value(b.skip(1))
    }
}

/// The low byte of a 16-bit integer.
pub open spec fn low_byte(v: u16) -> u8 {
    (v % 0x100) as u8
}

/// The high byte of a 16-bit integer.
pub open spec fn high_byte(v: u16) -> u8 {
    (v / 0x100) as u8
}

/// A sequence of `n` zero bytes.
pub open spec fn zeros(n: nat) -> Seq<u8> {
    Seq::new(n, |k: int| 0u8)
}

/// Reads the 16-bit integer at `i`.
pub fn read_u16(buf: &[u8], i: usize) -> (v: u16)
    requires
        i + 1 < buf@.len(),
    ensures
        v == le16(buf@, i as int),
{
    buf[i] as u16 + 0x100 * (buf[i + 1] as u16)
}

/// Reads the 32-bit integer at `i`.
pub fn read_u32(buf: &[u8], i: usize) -> (v: u32)
    requires
        i + 3 < buf@.len(),
    ensures
        v == le32(buf@, i as int),
{
    buf[i] as u32 + 0x100 * (buf[i + 1] as u32) + 0x1_0000 * (buf[i + 2] as u32) + 0x100_0000 * (
    buf[i + 3] as u32)
}

/// A 16-bit integer read back from the two bytes that `low_byte` and `high_byte` give.
pub proof fn le16_of_bytes(b: Seq<u8>, i: int, v: u16)
    requires
        b[i] == low_byte(v),
        b[i + 1] == high_byte(v),
    ensures
        le16(b, i) == v,
{
}

/// The four bytes of a 32-bit integer, low byte first.
pub open spec fn four_bytes(v: u32) -> Seq<u8> {
    seq![
        (v % 0x100) as u8,
        (v / 0x100 % 0x100) as u8,
        (v / 0x1_0000 % 0x100) as u8,
        (v / 0x100_0000) as u8,
    ]
}

/// The two bytes of a 16-bit integer, low byte first.
pub open spec fn two_bytes(v: u16) -> Seq<u8> {
    seq![(v % 0x100) as u8, (v / 0x100) as u8]
}

/// A 16-bit integer is read where its two bytes stand, and weighs them 1 and 256.
pub proof fn two_bytes_are_read_back(b: Seq<u8>, i: int, v: u16)
    requires
        0 <= i,
        i + 2 <= b.len(),
    ensures
        b.subrange(i, i + 2) == two_bytes(v) <==> le16(b, i) == v,
        le16(b, i) == b[i] + 0x100 * b[i + 1],
{
    let part = b.subrange(i, i + 2);
    assert(part[0] == b[i] && part[1] == b[i + 1]);
    if le16(b, i) == v {
        assert(part =~= two_bytes(v));
    }
}

/// A 32-bit integer is read where its four bytes stand.
pub proof fn four_bytes_are_read_back(b: Seq<u8>, i: int, v: u32)
    requires
        0 <= i,
        i + 4 <= b.len(),
        b.subrange(i, i + 4) == four_bytes(v),
    ensures
        le32(b, i) == v,
{
    let part = b.subrange(i, i + 4);
    assert(part[0] == b[i] && part[1] == b[i + 1] && part[2] == b[i + 2] && part[3] == b[i + 3]);
    assert(v == v % 0x100 + 0x100 * (v / 0x100 % 0x100) + 0x1_0000 * (v / 0x1_0000 % 0x100)
        + 0x100_0000 * (v / 0x100_0000));
}

} // verus!
