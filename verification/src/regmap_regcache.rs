//! Register-cache selection, block index arithmetic, register defaults, dirty state, and the
//! planning of sync writes and dropped ranges. Callers own all hardware access; these
//! functions return values and fill caller-provided buffers.

pub mod defaults;
pub mod index;
pub mod order;
pub mod selection;
pub mod sync;
