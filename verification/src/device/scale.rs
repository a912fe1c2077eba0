//! Scaling of 0-255 values to a device's own range.

use vstd::prelude::*;

verus! {

/// `value`, given on the scale 0-255, on the scale 0-`logical_max`, rounded to the nearest step.
/// Ranges of 255 and more take the value as it is.
pub open spec fn scaled(value: u8, logical_max: u32) -> u8 {
    if logical_max == 0 {
        0
    } else if logical_max >= 255 {
        value
    } else {
        ((value * logical_max + 127) / 255) as u8
    }
}

/// Scale a u8 value from 0-255 range to 0-logical_max range.
///
/// When `logical_max` is 255, returns the input unchanged.
/// When `logical_max` is 100 (e.g. LED Intensity per Section 11.7),
/// scales proportionally: 255 -> 100, 128 -> 50, etc.
pub fn scale_u8(value: u8, logical_max: u32) -> (r: u8)
    ensures
        r == scaled(value, logical_max),
{
    if logical_max == 0 {
        return 0;
    }
    if logical_max >= 255 {
        return value;
    }
    proof {
        scaled_quotient(value, logical_max);
    }
    ((value as u32 * logical_max + 127) / 255) as u8
}

proof fn scaled_quotient(value: u8, logical_max: u32)
    requires
        logical_max < 255,
    ensures
        0 <= value * logical_max <= 255 * logical_max,
        0 <= (value * logical_max + 127) / 255 <= logical_max,
{
    assert(0 <= value * logical_max <= 255 * logical_max) by (nonlinear_arith)
        requires
            0 <= value <= 255,
            0 <= logical_max,
    ;
}

/// A scaled value never exceeds the device's range.
pub proof fn scaled_in_range(value: u8, logical_max: u32)
    ensures
        scaled(value, logical_max) <= logical_max,
{
    if logical_max < 255 {
        scaled_quotient(value, logical_max);
    }
}

/// Black stays black, and full scale is the top of the device's range.
pub proof fn scaled_ends(logical_max: u32)
    ensures
        scaled(0, logical_max) == 0,
        scaled(255, logical_max) == if logical_max < 255 {
            logical_max
        } else {
            255
        },
{
}

/// Scaling keeps the order of values.
pub proof fn scaled_monotone(a: u8, b: u8, logical_max: u32)
    requires
        a <= b,
    ensures
        scaled(a, logical_max) <= scaled(b, logical_max),
{
    if logical_max < 255 {
        scaled_quotient(a, logical_max);
        scaled_quotient(b, logical_max);
        assert(a * logical_max <= b * logical_max) by (nonlinear_arith)
            requires
                0 <= a <= b,
                0 <= logical_max,
        ;
    }
}

/// Scaling is proportional: in a range below 255, the result differs from the exact quotient
/// `value * logical_max / 255` by less than half a step.
pub proof fn scaled_proportional(value: u8, logical_max: u32)
    requires
        logical_max < 255,
    ensures
        -255 < 2 * (255 * scaled(value, logical_max) - value * logical_max) < 255,
{
    scaled_quotient(value, logical_max);
}

} // verus!
