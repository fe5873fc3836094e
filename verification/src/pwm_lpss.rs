//! Intel Low Power Subsystem PWM controller: register layout, board data, the duty/period
//! encoding, and the update/wait sequencing.

pub mod board;
pub mod encode;
pub mod regs;
pub mod sequence;
