//! RealTek RTL8169/8168/8101 Ethernet controller: register map, descriptor format, reset,
//! interrupts, the receive and transmit decisions, chip identification, PHY and ERI access,
//! link-change handling and the MAC address cascade.

pub mod chip;
pub mod desc;
pub mod eri;
pub mod init;
pub mod irq;
pub mod link;
pub mod mac;
pub mod mdio;
pub mod phy;
pub mod regs;
pub mod ring;
pub mod rx;
pub mod tx;
pub mod xid_classes;
