//! Single-bit helpers for 8-bit registers.

use vstd::prelude::*;

verus! {

/// The byte in which only bit `bit` is set.
pub open spec fn mask_of(bit: u8) -> u8 {
    1u8 << bit
}

/// Whether bit `bit` of `value` is set.
pub open spec fn is_set(value: u8, bit: u8) -> bool {
    value & mask_of(bit) != 0
}

/// `value` with bit `bit` forced to `enabled`, all other bits kept.
pub open spec fn with_bit(value: u8, bit: u8, enabled: bool) -> u8 {
    if enabled {
        value | mask_of(bit)
    } else {
        value & !mask_of(bit)
    }
}

/// The byte in which bit `bit` is set when `enabled`, and no other bit.
pub open spec fn flag(bit: u8, enabled: bool) -> u8 {
    if enabled {
        mask_of(bit)
    } else {
        0
    }
}

/// Returns `value` with bit `bit` forced to `enabled`.
pub fn set(value: u8, bit: u8, enabled: bool) -> (r: u8)
    requires
        bit < 8,
    ensures
        r == with_bit(value, bit, enabled),
{
    if enabled {
        value | (1u8 << bit)
    } else {
        value & !(1u8 << bit)
    }
}

/// Tests bit `bit` of `value`.
pub fn test(value: u8, bit: u8) -> (r: bool)
    requires
        bit < 8,
    ensures
        r == is_set(value, bit),
{
    value & (1u8 << bit) != 0
}

/// The byte with bit `bit` set when `enabled`, zero otherwise.
pub fn value(bit: u8, enabled: bool) -> (r: u8)
    requires
        bit < 8,
    ensures
        r == flag(bit, enabled),
{
    if enabled {
        1u8 << bit
    } else {
        0
    }
}

} // verus!
