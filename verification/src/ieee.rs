//! Numbers that the library keeps without computing with them: each is held
//! as the 32 bits of its IEEE 754 form.

use vstd::prelude::*;

verus! {

/// The bits of 0.1.
pub const BITS_0_1: u32 = 0x3DCC_CCCD;

/// The bits of 0.2.
pub const BITS_0_2: u32 = 0x3E4C_CCCD;

/// The bits of 0.3.
pub const BITS_0_3: u32 = 0x3E99_999A;

/// The bits of 0.4.
pub const BITS_0_4: u32 = 0x3ECC_CCCD;

/// The bits of 0.5.
pub const BITS_0_5: u32 = 0x3F00_0000;

/// The bits of 0.6.
pub const BITS_0_6: u32 = 0x3F19_999A;

/// The bits of 0.8.
pub const BITS_0_8: u32 = 0x3F4C_CCCD;

/// The bits of 1.0.
pub const BITS_1_0: u32 = 0x3F80_0000;

/// The bits of 1.2.
pub const BITS_1_2: u32 = 0x3F99_999A;

/// The bits of 1.5.
pub const BITS_1_5: u32 = 0x3FC0_0000;

/// The bits of 2.0.
pub const BITS_2_0: u32 = 0x4000_0000;

/// Whether the number with these bits is zero or less.
///
/// That is so of zero with either sign and of everything with the sign bit
/// set, except of what is not a number.
pub open spec fn is_at_most_zero(bits: u32) -> bool {
    let negative = bits >= 0x8000_0000;
    let magnitude = if negative {
        bits - 0x8000_0000
    } else {
        bits as int
    };
    magnitude <= 0x7F80_0000 && (magnitude == 0 || negative)
}

/// Whether the number with these bits is zero or less.
pub fn at_most_zero(bits: u32) -> (yes: bool)
    ensures
        yes == is_at_most_zero(bits),
{
    let negative = bits >= 0x8000_0000;
    let magnitude = if negative {
        bits - 0x8000_0000
    } else {
        bits
    };
    magnitude <= 0x7F80_0000 && (magnitude == 0 || negative)
}

} // verus!
