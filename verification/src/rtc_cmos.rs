//! Control logic of the PC-style CMOS real-time clock (an MC146818 register set): alarm field
//! conversion and range checks, register-B interrupt controls and register-C handling, the
//! order of interrupt-control actions, and suspend, resume and power-off decisions. Callers
//! supply register values and carry out the returned decisions.

pub mod alarm;
pub mod bcd;
pub mod control;
pub mod interrupt;
pub mod registers;
pub mod wake;
