//! Interrupt event bits.

use vstd::prelude::*;

verus! {

pub const SYS_ERR: u16 = 0x8000;
pub const PCS_TIMEOUT: u16 = 0x4000;
pub const SW_INT: u16 = 0x0100;
pub const TX_DESC_UNAVAIL: u16 = 0x0080;
pub const RX_FIFO_OVER: u16 = 0x0040;
pub const LINK_CHG: u16 = 0x0020;
pub const RX_OVERFLOW: u16 = 0x0010;
pub const TX_ERR: u16 = 0x0008;
pub const TX_OK: u16 = 0x0004;
pub const RX_ERR: u16 = 0x0002;
pub const RX_OK: u16 = 0x0001;

} // verus!
