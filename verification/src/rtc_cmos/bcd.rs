//! Binary-coded decimal: one decimal digit in each nibble.

use vstd::prelude::*;
use crate::rtc_cmos::registers::DM_BINARY;

verus! {

/// The number a BCD byte stands for: low nibble plus ten times the high nibble.
pub open spec fn bcd_value(b: u8) -> int {
    b % 16 + (b / 16) * 10
}

/// The BCD byte of `v`: tens in the high nibble, units in the low one, kept to eight bits.
pub open spec fn bcd_of(v: u8) -> u8 {
    (((v / 10) * 16 + v % 10) % 256) as u8
}

/// Converts a BCD byte to binary.
pub fn bcd_to_binary(value: u8) -> (r: u8)
    ensures
        r == bcd_value(value),
{
    proof {
        assert(value & 0xf == value % 16 && value >> 4u8 == value / 16) by (bit_vector);
    }
    (value & 0x0f) + (value >> 4u8) * 10
}

/// Converts a binary value to BCD; values of 100 or more do not fit two digits and come out
/// truncated to eight bits.
pub fn binary_to_bcd(value: u8) -> (r: u8)
    ensures
        r == bcd_of(value),
        value < 100 ==> r == (value / 10) * 16 + value % 10,
{
    let wide: u16 = (value as u16 / 10) * 16 + value as u16 % 10;
    (wide % 256) as u8
}

/// Values are BCD unless register B selects binary mode, or the platform always uses BCD.
pub open spec fn spec_uses_bcd(control_b: u8, always_bcd: bool) -> bool {
    control_b & DM_BINARY == 0 || always_bcd
}

/// Whether register values are BCD.
pub fn uses_bcd(control_b: u8, always_bcd: bool) -> (r: bool)
    ensures
        r == spec_uses_bcd(control_b, always_bcd),
{
    control_b & DM_BINARY == 0 || always_bcd
}

/// Reading back a two-digit value written in BCD gives the value.
pub proof fn lemma_bcd_round_trip(v: u8)
    requires
        v < 100,
    ensures
        bcd_value(bcd_of(v)) == v,
{
    let b = (v / 10) * 16 + v % 10;
    assert(b < 256);
    assert(b % 16 == v % 10 && b / 16 == v / 10) by (nonlinear_arith)
        requires
            b == (v / 10) * 16 + v % 10,
            0 <= v % 10 < 10,
    ;
}

} // verus!
