//! The numbers and buffers of Linux HIDRAW accesses.

use vstd::prelude::*;

use crate::bytes;

verus! {

/// An ioctl request number as the kernel composes it (`_IOC`): the direction in bits 30 and 31, the
/// size of the argument in bits 16 to 29, the type in bits 8 to 15, the number in bits 0 to 7.
pub open spec fn ioc(direction: nat, size: nat, kind: nat, number: nat) -> nat {
    direction * 0x4000_0000 + size * 0x1_0000 + kind * 0x100 + number
}

/// Data goes both ways: `_IOC_READ | _IOC_WRITE`.
pub open spec fn read_write() -> nat {
    3
}

/// HIDIOCGFEATURE = _IOC(_IOC_READ|_IOC_WRITE, 'H', 0x07, len)
///
/// A length that does not fit in its 14 bits runs over into the bits above.
pub fn hidiocgfeature(size: usize) -> (request: u64)
    ensures
        request == 0xC000_4807u64 | ((size as u64) << 16),
        size < 0x4000 ==> request == ioc(read_write(), size as nat, 'H' as nat, 0x07),
{
    let n: u64 = size as u64;
    assert(n < 0x4000 ==> 0xC000_4807u64 | (n << 16) == 0xC000_4807u64 + n * 0x1_0000)
        by (bit_vector);
    0xC000_4807 | (n << 16)
}

/// HIDIOCSFEATURE = _IOC(_IOC_READ|_IOC_WRITE, 'H', 0x06, len)
///
/// A length that does not fit in its 14 bits runs over into the bits above.
pub fn hidiocsfeature(size: usize) -> (request: u64)
    ensures
        request == 0xC000_4806u64 | ((size as u64) << 16),
        size < 0x4000 ==> request == ioc(read_write(), size as nat, 'H' as nat, 0x06),
{
    let n: u64 = size as u64;
    assert(n < 0x4000 ==> 0xC000_4806u64 | (n << 16) == 0xC000_4806u64 + n * 0x1_0000)
        by (bit_vector);
    0xC000_4806 | (n << 16)
}

/// The buffer into which a Feature report is read: the report ID, and room for the data.
pub fn feature_buffer(report_id: u8, size: usize) -> (buf: Vec<u8>)
    requires
        size < isize::MAX,
    ensures
        buf@ == seq![report_id] + bytes::zeros(size as nat),
{
    let mut buf: Vec<u8> = vec![0u8; size + 1];
    buf[0] = report_id;
    assert(buf@ =~= seq![report_id] + bytes::zeros(size as nat));
    buf
}

/// The part of the buffer that a transfer of `count` bytes has filled: the rest is undefined.
pub fn received(buf: Vec<u8>, count: usize) -> (data: Vec<u8>)
    ensures
        data@ == if count < buf@.len() {
            buf@.take(count as int)
        } else {
            buf@
        },
{
    let mut data: Vec<u8> = buf;
    data.truncate(count);
    data
}

/// The parts of a request number can be read off it: data goes both ways, the size in its 14 bits, and
/// type and number in a byte each.
pub proof fn request_numbers_are_composed(size: nat, kind: nat, number: nat)
    requires
        size < 0x4000,
        kind < 0x100,
        number < 0x100,
    ensures
        ({
            let n = ioc(read_write(), size, kind, number);
            &&& n / 0x4000_0000 == 3
            &&& n / 0x1_0000 % 0x4000 == size
            &&& n / 0x100 % 0x100 == kind
            &&& n % 0x100 == number
        }),
{
}

} // verus!
