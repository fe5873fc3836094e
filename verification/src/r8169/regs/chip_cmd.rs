//! `ChipCmd` bits.

use vstd::prelude::*;

verus! {

/// Stop request.
pub const STOP_REQ: u8 = 0x80;
/// Software reset; self-clearing when the reset completes.
pub const RESET: u8 = 0x10;
/// Receiver enable.
pub const RX_ENB: u8 = 0x08;
/// Transmitter enable.
pub const TX_ENB: u8 = 0x04;

} // verus!
