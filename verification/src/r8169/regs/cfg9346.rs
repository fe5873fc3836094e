//! `Cfg9346` values: writes to Config0..5 are discarded unless unlocked.

use vstd::prelude::*;

verus! {

pub const LOCK: u8 = 0x00;
pub const UNLOCK: u8 = 0xc0;

} // verus!
