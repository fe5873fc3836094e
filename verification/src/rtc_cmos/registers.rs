//! MC146818 register numbers and bits.

use vstd::prelude::*;

verus! {

/// Register C, the interrupt flags.
pub const INTR_FLAGS: u8 = 12;

/// Register B: periodic interrupt enable.
pub const PIE: u8 = 0x40;

/// Register B: alarm interrupt enable.
pub const AIE: u8 = 0x20;

/// Register B: update-ended interrupt enable.
pub const UIE: u8 = 0x10;

/// Register B: values are binary rather than BCD.
pub const DM_BINARY: u8 = 0x04;

/// Register B: 24-hour mode.
pub const HOUR_24: u8 = 0x02;

/// Register C: some enabled interrupt is pending.
pub const IRQF: u8 = 0x80;

/// Register C: periodic interrupt flag.
pub const PF: u8 = 0x40;

/// Register C: alarm interrupt flag.
pub const AF: u8 = 0x20;

/// Register C: update-ended interrupt flag.
pub const UF: u8 = 0x10;

} // verus!
