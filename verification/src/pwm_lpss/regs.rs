//! LPSS PWM register layout.

use vstd::prelude::*;
use vstd::arithmetic::power2::pow2;
use vstd::bits::{lemma_u32_shl_is_mul, lemma_u32_pow2_no_overflow};

verus! {

/// PWM configuration register within each channel.
pub const PWM: u32 = 0x0000_0000;
/// Distance between PWM channel register spaces.
pub const PWM_SIZE: u32 = 0x400;
/// Output enable, bit 31.
pub const PWM_ENABLE: u32 = 0x8000_0000;
/// Commit request, bit 30, cleared by hardware at the next output cycle.
pub const PWM_SW_UPDATE: u32 = 0x4000_0000;
/// The base-unit field starts at bit 8.
pub const PWM_BASE_UNIT_SHIFT: u32 = 8;
/// Inverted duty divisor in bits 7:0.
pub const PWM_ON_TIME_DIV_MASK: u32 = 0xff;
/// Maximum channel count accepted by the core.
pub const LPSS_MAX_PWMS: u8 = 4;

/// The mask of a base-unit field `bits` wide, placed at bit 8, as a number: `(2^bits - 1) * 256`,
/// truncated to 32 bits.
pub open spec fn spec_base_unit_mask(bits: nat) -> int {
    ((pow2(bits) - 1) * 256) % 0x1_0000_0000
}

/// Byte offset of one channel's PWM configuration register: `channel * PWM_SIZE + PWM`.
pub fn channel_offset(channel: u8) -> (offset: u32)
    ensures
        offset == channel * PWM_SIZE + PWM,
{
    channel as u32 * PWM_SIZE + PWM
}

proof fn lemma_shl8_truncates(x: u32)
    by (bit_vector)
    ensures
        x << 8u32 == ((x as int * 256) % 0x1_0000_0000) as u32,
{
}

/// Mask of the variable-width base-unit field: `(2^bits - 1) << 8`.
///
/// Widths below 32 are accepted (a wider shift overflows); fields wider than 24 bits lose their
/// top bits to the 32-bit register.
pub fn base_unit_mask(base_unit_bits: u8) -> (mask: u32)
    requires
        base_unit_bits < 32,
    ensures
        mask == spec_base_unit_mask(base_unit_bits as nat),
        base_unit_bits <= 24 ==> mask == (pow2(base_unit_bits as nat) - 1) * 256,
{
    proof {
        lemma_u32_pow2_no_overflow(base_unit_bits as nat);
        lemma_u32_shl_is_mul(1, base_unit_bits as u32);
    }
    let one_shifted = 1u32 << base_unit_bits;
    let low = one_shifted - 1;
    proof {
        lemma_shl8_truncates(low);
        if base_unit_bits <= 24 {
            vstd::arithmetic::power2::lemma2_to64();
            if base_unit_bits < 24 {
                vstd::arithmetic::power2::lemma_pow2_strictly_increases(base_unit_bits as nat, 24);
            }
            assert((low as int) * 256 < 0x1_0000_0000) by (nonlinear_arith)
                requires low < 0x100_0000;
        }
    }
    low << 8
}

} // verus!
