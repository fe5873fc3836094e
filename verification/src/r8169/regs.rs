//! The RTL8169 MMIO register map.

pub mod cfg9346;
pub mod chip_cmd;

use vstd::prelude::*;

verus! {

/// Ethernet hardware address, six bytes at MAC0/MAC4.
pub const MAC0: u32 = 0;
pub const MAC4: u32 = 4;
/// Multicast filter, eight bytes.
pub const MAR0: u32 = 8;
/// Hardware statistics counter block address.
pub const COUNTER_ADDR_LOW: u32 = 0x10;
/// TX descriptor ring base, split low/high.
pub const TX_DESC_START_ADDR_LOW: u32 = 0x20;
pub const TX_DESC_START_ADDR_HIGH: u32 = 0x24;
/// Command register: reset, and RX/TX enable.
pub const CHIP_CMD: u32 = 0x37;
/// Transmit poll doorbell.
pub const TX_POLL: u32 = 0x38;
/// Interrupt mask and status, both 16-bit and two bytes apart.
pub const INTR_MASK: u32 = 0x3c;
pub const INTR_STATUS: u32 = 0x3e;
/// TX and RX configuration.
pub const TX_CONFIG: u32 = 0x40;
pub const RX_CONFIG: u32 = 0x44;
/// The Config0..5 write lock.
pub const CFG_9346: u32 = 0x50;
/// Config0..Config5.
pub const CONFIG0: u32 = 0x51;
pub const CONFIG1: u32 = 0x52;
pub const CONFIG2: u32 = 0x53;
pub const CONFIG3: u32 = 0x54;
pub const CONFIG4: u32 = 0x55;
pub const CONFIG5: u32 = 0x56;
/// MII/PHY access register.
pub const PHYAR: u32 = 0x60;
/// PHY link status.
pub const PHY_STATUS: u32 = 0x6c;
/// Reset poll budget: 100 polls, 100 microseconds apart.
pub const RESET_POLL_INTERVAL_US: u32 = 100;
pub const RESET_POLL_MAX: u32 = 100;

} // verus!
