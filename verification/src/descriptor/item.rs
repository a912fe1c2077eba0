//! Items: the units of a HID report descriptor (HID 1.11, 6.2.2).

use vstd::prelude::*;
use vstd::slice::slice_subrange;

use crate::bytes;

verus! {

/// Main items describe data fields and collections.
pub const TYPE_MAIN: u8 = 0;

/// Global items hold until they are changed.
pub const TYPE_GLOBAL: u8 = 1;

/// Local items hold for the next Main item.
pub const TYPE_LOCAL: u8 = 2;

/// Reserved and long items, which mean nothing here.
pub const TYPE_RESERVED: u8 = 3;

/// The prefix byte of a long item.
pub const LONG_ITEM: u8 = 0xFE;

/// One item of a descriptor.
pub struct Item {
    /// The prefix byte without its size bits.
    pub tag: u8,
    pub item_type: u8,
    pub payload: Seq<u8>,
    /// How many bytes the item takes up, prefix and payload together.
    pub len: nat,
}

/// How many payload bytes the prefix of a short item announces: size code 3 means 4 bytes.
pub open spec fn payload_len(prefix: u8) -> nat {
    if prefix % 4 == 3 {
        4
    } else {
        (prefix % 4) as nat
    }
}

/// The item that starts at `offset`, if all of it is there.
///
/// A short item is a prefix byte (tag in the upper six bits, the type in bits 2 and 3, the size
/// code in bits 0 and 1) and its payload (6.2.2.2). A long item is 0xFE, a data size, a long tag
/// and its data (6.2.2.3); it counts as a reserved item without payload.
pub open spec fn item_at(data: Seq<u8>, offset: int) -> Option<Item> {
    if offset >= data.len() {
        None
    } else if data[offset] == LONG_ITEM {
        if offset + 2 >= data.len() || offset + 3 + data[offset + 1] > data.len() {
            None
        } else {
            Some(
                Item {
                    tag: LONG_ITEM,
                    item_type: TYPE_RESERVED,
                    payload: Seq::empty(),
                    len: (3 + data[offset + 1]) as nat,
                },
            )
        }
    } else {
        let prefix = data[offset];
        let end = offset + 1 + payload_len(prefix);
        if end > data.len() {
            None
        } else {
            Some(
                Item {
                    tag: (prefix - prefix % 4) as u8,
                    item_type: (prefix / 4 % 4) as u8,
                    payload: data.subrange(offset + 1, end),
                    len: 1 + payload_len(prefix),
                },
            )
        }
    }
}

/// The items of a descriptor from `offset` on, up to the first one that is cut off.
pub open spec fn items_from(data: Seq<u8>, offset: int) -> Seq<Item>
    decreases data.len() - offset,
{
    match item_at(data, offset) {
        None => Seq::empty(),
        Some(item) => seq![item] + items_from(data, offset + item.len),
    }
}

/// Parse one HID descriptor item.
///
/// Returns (tag, item_type, payload_slice, total_item_bytes).
/// `item_type`: 0=Main, 1=Global, 2=Local, 3=reserved/long (skip).
///
/// Handles both short items (HID 1.11 6.2.2.2) and long items (6.2.2.3).
pub fn parse_item(data: &[u8], offset: usize) -> (r: Option<(u8, u8, &[u8], usize)>)
    ensures
        match r {
            None => item_at(data@, offset as int) is None,
            Some((tag, item_type, payload, len)) => item_at(data@, offset as int) == Some(
                Item { tag, item_type, payload: payload@, len: len as nat },
            ) && offset + len <= data@.len(),
        },
{
    if offset >= data.len() {
        return None;
    }
    let left: usize = data.len() - offset;
    let prefix: u8 = data[offset];
    if prefix == LONG_ITEM {
        if left <= 2 {
            return None;
        }
        let total: usize = 3 + data[offset + 1] as usize;
        if total > left {
            return None;
        }
        let empty: &[u8] = slice_subrange(data, offset, offset);
        assert(empty@ =~= Seq::empty());
        return Some((LONG_ITEM, TYPE_RESERVED, empty, total));
    }
    let mut size: usize = (prefix % 4) as usize;
    if size == 3 {
        size = 4;
    }
    if 1 + size > left {
        return None;
    }
    let payload: &[u8] = slice_subrange(data, offset + 1, offset + 1 + size);
    Some((prefix - prefix % 4, prefix / 4 % 4, payload, 1 + size))
}

/// The bytes of a payload that count: the first four.
pub open spec fn counted(payload: Seq<u8>) -> Seq<u8> {
    if payload.len() <= 4 {
        payload
    } else {
        payload.take(4)
    }
}

/// A payload as an unsigned integer, low byte first.
pub open spec fn unsigned(payload: Seq<u8>) -> u32 {
    bytes::le_value(counted(payload)) as u32
}

/// The weight of the top bit of an integer of `n` bytes.
pub open spec fn sign_bit(n: nat) -> int {
    if n == 1 {
        0x80
    } else if n == 2 {
        0x8000
    } else if n == 3 {
        0x80_0000
    } else {
        0x8000_0000
    }
}

/// A payload as a signed integer in two's complement, low byte first.
pub open spec fn signed(payload: Seq<u8>) -> i32 {
    let v = bytes::le_value(counted(payload)) as int;
    let top = sign_bit(counted(payload).len());
    if payload.len() == 0 {
        0
    } else if v < top {
        v as i32
    } else {
        (v - 2 * top) as i32
    }
}

proof fn le_value_of_four(b: Seq<u8>)
    requires
        b.len() <= 4,
    ensures
        bytes::le_value(b) == (if b.len() > 0 {
            b[0] as int
        } else {
            0
        }) + 0x100 * (if b.len() > 1 {
            b[1] as int
        } else {
            0
        }) + 0x1_0000 * (if b.len() > 2 {
            b[2] as int
        } else {
            0
        }) + 0x100_0000 * (if b.len() > 3 {
            b[3] as int
        } else {
            0
        }),
{
    reveal_with_fuel(bytes::le_value, 5);
}

/// The value of the first four bytes, low byte first, with zeros for those that are not there.
fn le_bytes(payload: &[u8]) -> (v: u32)
    ensures
        v == bytes::le_value(counted(payload@)),
{
    let n: usize = payload.len();
    let b0: u32 = if n > 0 {
        payload[0] as u32
    } else {
        0
    };
    let b1: u32 = if n > 1 {
        payload[1] as u32
    } else {
        0
    };
    let b2: u32 = if n > 2 {
        payload[2] as u32
    } else {
        0
    };
    let b3: u32 = if n > 3 {
        payload[3] as u32
    } else {
        0
    };
    proof {
        le_value_of_four(counted(payload@));
    }
    b0 + 0x100 * b1 + 0x1_0000 * b2 + 0x100_0000 * b3
}

/// Decode a HID item payload as an unsigned integer.
pub fn payload_value(payload: &[u8]) -> (v: u32)
    ensures
        v == unsigned(payload@),
{
    le_bytes(payload)
}

/// Decode a HID item payload as a signed integer (sign-extended).
///
/// HID 1.11 6.2.2.7 requires LogicalMinimum/LogicalMaximum to be
/// interpreted as signed values with sign extension based on payload size.
pub fn payload_value_signed(payload: &[u8]) -> (v: i32)
    ensures
        v == signed(payload@),
{
    let v: i64 = le_bytes(payload) as i64;
    proof {
        le_value_of_four(counted(payload@));
    }
    match payload.len() {
        0 => 0,
        1 => if v < 0x80 {
            v as i32
        } else {
            (v - 0x100) as i32
        },
        2 => if v < 0x8000 {
            v as i32
        } else {
            (v - 0x1_0000) as i32
        },
        3 => if v < 0x80_0000 {
            v as i32
        } else {
            (v - 0x100_0000) as i32
        },
        _ => if v < 0x8000_0000 {
            v as i32
        } else {
            (v - 0x1_0000_0000) as i32
        },
    }
}

/// A payload that carries on after another descriptor's bytes reads the same: what stands before
/// an item does not change it.
proof fn item_after_prefix(a: Seq<u8>, b: Seq<u8>, offset: int)
    requires
        0 <= offset,
    ensures
        item_at(a + b, a.len() + offset) == item_at(b, offset),
{
    let all = a + b;
    let at = a.len() + offset;
    if offset < b.len() {
        assert(all[at] == b[offset]);
        if b[offset] == LONG_ITEM {
            if offset + 1 < b.len() {
                assert(all[at + 1] == b[offset + 1]);
            }
        } else {
            let end = offset + 1 + payload_len(b[offset]);
            if end <= b.len() {
                assert(all.subrange(at + 1, a.len() + end) =~= b.subrange(offset + 1, end));
            }
        }
    }
}

proof fn items_after_prefix(a: Seq<u8>, b: Seq<u8>, offset: int)
    requires
        0 <= offset <= b.len(),
    ensures
        items_from(a + b, a.len() + offset) == items_from(b, offset),
    decreases b.len() - offset,
{
    item_after_prefix(a, b, offset);
    if let Some(item) = item_at(b, offset) {
        items_after_prefix(a, b, offset + item.len);
    }
}

/// How many bytes the items from `offset` on take up.
pub open spec fn items_len(data: Seq<u8>, offset: int) -> nat
    decreases data.len() - offset,
{
    match item_at(data, offset) {
        None => 0,
        Some(item) => item.len + items_len(data, offset + item.len),
    }
}

/// A descriptor in which no item is cut off.
pub open spec fn whole(data: Seq<u8>) -> bool {
    items_len(data, 0) == data.len()
}

/// A descriptor appended to a whole one continues it: its items follow.
pub proof fn items_append(a: Seq<u8>, b: Seq<u8>)
    requires
        whole(a),
    ensures
        items_from(a + b, 0) == items_from(a, 0) + items_from(b, 0),
{
    items_append_from(a, b, 0);
}

proof fn items_append_from(a: Seq<u8>, b: Seq<u8>, offset: int)
    requires
        0 <= offset <= a.len(),
        offset + items_len(a, offset) == a.len(),
    ensures
        items_from(a + b, offset) == items_from(a, offset) + items_from(b, 0),
    decreases a.len() - offset,
{
    match item_at(a, offset) {
        None => {
            assert(offset == a.len());
            items_after_prefix(a, b, 0);
            assert(items_from(a, offset) + items_from(b, 0) =~= items_from(b, 0));
        },
        Some(item) => {
            let all = a + b;
            assert(all[offset] == a[offset]);
            if a[offset] == LONG_ITEM {
                assert(all[offset + 1] == a[offset + 1]);
            } else {
                let end = offset + 1 + payload_len(a[offset]);
                assert(all.subrange(offset + 1, end) =~= a.subrange(offset + 1, end));
            }
            assert(item_at(all, offset) == Some(item));
            items_append_from(a, b, offset + item.len);
            assert(items_from(all, offset) =~= items_from(a, offset) + items_from(b, 0));
        },
    }
}

/// Bytes that hold no complete item at their start add no items.
pub proof fn cut_off_tail_is_ignored(a: Seq<u8>, tail: Seq<u8>)
    requires
        whole(a),
        item_at(tail, 0) is None,
    ensures
        items_from(a + tail, 0) == items_from(a, 0),
{
    items_append(a, tail);
    assert(items_from(a, 0) + items_from(tail, 0) =~= items_from(a, 0));
}

proof fn items_len_after_prefix(a: Seq<u8>, b: Seq<u8>, offset: int)
    requires
        0 <= offset <= b.len(),
    ensures
        items_len(a + b, a.len() + offset) == items_len(b, offset),
    decreases b.len() - offset,
{
    item_after_prefix(a, b, offset);
    if let Some(item) = item_at(b, offset) {
        items_len_after_prefix(a, b, offset + item.len);
    }
}

proof fn items_len_append(a: Seq<u8>, b: Seq<u8>, offset: int)
    requires
        0 <= offset <= a.len(),
        offset + items_len(a, offset) == a.len(),
    ensures
        items_len(a + b, offset) == items_len(a, offset) + items_len(b, 0),
    decreases a.len() - offset,
{
    let all = a + b;
    match item_at(a, offset) {
        None => {
            items_len_after_prefix(a, b, 0);
        },
        Some(item) => {
            assert(all[offset] == a[offset]);
            if a[offset] == LONG_ITEM {
                assert(all[offset + 1] == a[offset + 1]);
            } else {
                let end = offset + 1 + payload_len(a[offset]);
                assert(all.subrange(offset + 1, end) =~= a.subrange(offset + 1, end));
            }
            assert(item_at(all, offset) == Some(item));
            items_len_append(a, b, offset + item.len);
        },
    }
}

/// A whole descriptor with one more item at its end is whole.
pub proof fn whole_append(a: Seq<u8>, b: Seq<u8>)
    requires
        whole(a),
        item_at(b, 0) matches Some(item) && item.len == b.len(),
    ensures
        whole(a + b),
{
    items_len_append(a, b, 0);
    let item = item_at(b, 0)->0;
    assert(item_at(b, b.len() as int) is None);
    assert(items_len(b, b.len() as int) == 0);
    assert(items_len(b, 0) == item.len + items_len(b, item.len as int));
}

/// The size code of a short item: 0, 1, 2 or 4 bytes of payload.
pub open spec fn size_code(n: nat) -> int {
    if n == 4 {
        3
    } else {
        n as int
    }
}

/// A short item, wherever it stands in a descriptor, is read as it was written: its tag, the type
/// that the tag holds in bits 2 and 3, and its payload.
pub proof fn short_items_are_read_back(
    before: Seq<u8>,
    tag: u8,
    payload: Seq<u8>,
    after: Seq<u8>,
)
    requires
        tag % 4 == 0,
        payload.len() <= 2 || payload.len() == 4,
        tag + size_code(payload.len()) != 0xFE,
    ensures
        ({
            let prefix = (tag + size_code(payload.len())) as u8;
            let data = before + seq![prefix] + payload + after;
            item_at(data, before.len() as int) == Some(
                Item {
                    tag,
                    item_type: (tag / 4 % 4) as u8,
                    payload,
                    len: 1 + payload.len(),
                },
            )
        }),
{
    let prefix = (tag + size_code(payload.len())) as u8;
    let data = before + seq![prefix] + payload + after;
    let at = before.len() as int;
    assert(data[at] == prefix);
    assert(data.subrange(at + 1, at + 1 + payload.len()) =~= payload);
}

/// A long item is passed over as a whole, whatever its tag and its data are.
pub proof fn long_items_are_passed_over(before: Seq<u8>, long_tag: u8, data: Seq<u8>, after: Seq<u8>)
    requires
        data.len() <= 0xFF,
    ensures
        item_at(
            before + seq![0xFEu8, data.len() as u8, long_tag] + data + after,
            before.len() as int,
        ) matches Some(it) && it.item_type == 3 && it.len == 3 + data.len(),
{
    let all = before + seq![0xFEu8, data.len() as u8, long_tag] + data + after;
    let at = before.len() as int;
    assert(all[at] == 0xFE);
    assert(all[at + 1] == data.len() as u8);
}

/// What is not there in full is no item: a short item whose payload is cut off, a long item whose
/// data is, or nothing at all.
pub proof fn cut_off_items_are_none(data: Seq<u8>, offset: int)
    requires
        0 <= offset,
        offset >= data.len() || {
            let left = data.len() - offset;
            if data[offset] == 0xFE {
                left < 3 || left < 3 + data[offset + 1]
            } else {
                ||| data[offset] % 4 == 1 && left < 2
                ||| data[offset] % 4 == 2 && left < 3
                ||| data[offset] % 4 == 3 && left < 5
            }
        },
    ensures
        item_at(data, offset) is None,
{
}

/// The items of a descriptor are the first one and those behind it.
pub proof fn items_follow_each_other(data: Seq<u8>, offset: int)
    requires
        0 <= offset,
    ensures
        match item_at(data, offset) {
            None => items_from(data, offset).len() == 0,
            Some(it) => {
                &&& items_from(data, offset).len() == 1 + items_from(data, offset + it.len).len()
                &&& items_from(data, offset)[0] == it
                &&& items_from(data, offset).drop_first() == items_from(data, offset + it.len)
            },
        },
{
    if let Some(it) = item_at(data, offset) {
        assert(items_from(data, offset).drop_first() =~= items_from(data, offset + it.len));
    }
}

/// Payloads are integers with the low byte first; a missing payload is 0.
pub proof fn payloads_are_little_endian(p: Seq<u8>)
    requires
        p.len() <= 2 || p.len() == 4,
    ensures
        p.len() == 0 ==> unsigned(p) == 0,
        p.len() == 1 ==> unsigned(p) == p[0],
        p.len() == 2 ==> unsigned(p) == p[0] + 0x100 * p[1],
        p.len() == 4 ==> unsigned(p) == p[0] + 0x100 * p[1] + 0x1_0000 * p[2] + 0x100_0000 * p[3],
{
    le_value_of_four(p);
}

/// A signed payload of `n` bytes lies between -2^(8n-1) and 2^(8n-1), and differs from the unsigned
/// one by nothing or by 2^(8n): it is the two's complement.
pub proof fn signed_payloads_are_twos_complement(p: Seq<u8>)
    requires
        p.len() <= 2 || p.len() == 4,
    ensures
        p.len() == 0 ==> signed(p) == 0,
        p.len() == 1 ==> -0x80 <= signed(p) < 0x80 && (signed(p) == unsigned(p) || signed(p)
            == unsigned(p) - 0x100),
        p.len() == 2 ==> -0x8000 <= signed(p) < 0x8000 && (signed(p) == unsigned(p) || signed(p)
            == unsigned(p) - 0x1_0000),
        p.len() == 4 ==> signed(p) == unsigned(p) || signed(p) == unsigned(p) - 0x1_0000_0000,
{
    le_value_of_four(p);
}

/// A payload of three bytes is read like the others, and of a longer one than four bytes the first
/// four count.
pub proof fn odd_payloads_are_read_alike(p: Seq<u8>)
    requires
        p.len() >= 3,
    ensures
        p.len() == 3 ==> {
            &&& unsigned(p) == p[0] + 0x100 * p[1] + 0x1_0000 * p[2]
            &&& -0x80_0000 <= signed(p) < 0x80_0000
            &&& signed(p) == unsigned(p) || signed(p) == unsigned(p) - 0x100_0000
        },
        p.len() > 4 ==> unsigned(p) == unsigned(p.take(4)) && signed(p) == signed(p.take(4)),
{
    if p.len() == 3 {
        assert(p.skip(1).skip(1).skip(1) =~= Seq::<u8>::empty());
        reveal_with_fuel(bytes::le_value, 4);
    } else {
        assert(p.take(4).take(4) =~= p.take(4));
    }
}

} // verus!
