//! RX/TX descriptor ring bookkeeping: free-running counters, the ring-end marker, and the
//! ownership handshake.

use vstd::prelude::*;
use crate::r8169::desc::{
    self, spec_rx_opts1_hand_to_nic, DESC_OWN, FIRST_FRAG, LAST_FRAG, OPTS1_LEN_MASK, RING_END,
    RX_BUF_SIZE,
};

verus! {

/// Descriptors per ring.
pub const NUM_TX_DESC: u32 = 256;
pub const NUM_RX_DESC: u32 = 256;

/// The ring index of a free-running counter: `cur_rx % NUM_RX_DESC`.
pub fn rx_index(cur_rx: u32) -> (index: u32)
    ensures
        index == cur_rx % NUM_RX_DESC,
{
    cur_rx % NUM_RX_DESC
}

/// The ring index of a free-running counter: `cur_tx % NUM_TX_DESC`.
pub fn tx_index(cur_tx: u32) -> (index: u32)
    ensures
        index == cur_tx % NUM_TX_DESC,
{
    cur_tx % NUM_TX_DESC
}

/// Whether this is the last RX descriptor, the one that carries `RingEnd`.
pub fn is_last_rx(index: u32) -> (last: bool)
    ensures
        last == (index == NUM_RX_DESC - 1),
{
    index == NUM_RX_DESC - 1
}

/// Whether this is the last TX descriptor.
pub fn is_last_tx(index: u32) -> (last: bool)
    ensures
        last == (index == NUM_TX_DESC - 1),
{
    index == NUM_TX_DESC - 1
}

/// The `opts1` an RX descriptor starts with: `RingEnd` on the last entry, nothing elsewhere.
pub open spec fn spec_rx_initial_opts1(index: u32) -> u32 {
    if index == NUM_RX_DESC - 1 {
        RING_END
    } else {
        0
    }
}

/// The `opts1` an RX descriptor is initialised with at ring-fill time.
pub fn rx_initial_opts1(index: u32) -> (opts1: u32)
    ensures
        opts1 == spec_rx_initial_opts1(index),
{
    if is_last_rx(index) {
        RING_END
    } else {
        0
    }
}

/// Hand an RX descriptor to the NIC with the standard buffer size, as one word.
pub fn rx_hand_to_nic_opts1(existing_opts1: u32) -> (opts1: u32)
    ensures
        opts1 == spec_rx_opts1_hand_to_nic(existing_opts1, RX_BUF_SIZE),
        opts1 & DESC_OWN != 0,
        opts1 & RING_END == existing_opts1 & RING_END,
        opts1 & OPTS1_LEN_MASK == RX_BUF_SIZE,
{
    let r = desc::rx_opts1_hand_to_nic(existing_opts1, RX_BUF_SIZE);
    proof {
        lemma_full_length(RX_BUF_SIZE);
    }
    r
}

proof fn lemma_full_length(x: u32)
    by (bit_vector)
    requires
        x == 0x3fffu32,
    ensures
        x & 0x3fffu32 == x,
        (0u32 & 0x4000_0000u32) == 0u32,
        (0x4000_0000u32 & 0x4000_0000u32) == 0x4000_0000u32,
{
}

/// How many descriptors are outstanding between two free-running counters: `cur - dirty`,
/// wrapping.
pub fn outstanding(cur: u32, dirty: u32) -> (count: u32)
    ensures
        count == (cur as int - dirty as int + 0x1_0000_0000) % 0x1_0000_0000,
{
    cur.wrapping_sub(dirty)
}

/// Whether the driver may touch a descriptor: only once the NIC has given it back.
pub fn driver_may_touch(opts1: u32) -> (may: bool)
    ensures
        may == (opts1 & DESC_OWN == 0),
{
    opts1 & DESC_OWN == 0
}

/// Filling a ring and handing every descriptor to the NIC leaves it well formed: every entry is
/// owned by the NIC and advertises the full buffer, and exactly the last entry carries `RingEnd`.
pub proof fn lemma_filled_ring_is_well_formed(index: u32)
    requires
        index < NUM_RX_DESC,
    ensures
        ({
            let opts1 = spec_rx_opts1_hand_to_nic(spec_rx_initial_opts1(index), RX_BUF_SIZE);
            &&& opts1 & DESC_OWN != 0
            &&& (opts1 & RING_END != 0) == (index == NUM_RX_DESC - 1)
            &&& opts1 & OPTS1_LEN_MASK == RX_BUF_SIZE
            &&& opts1 & FIRST_FRAG == 0
            &&& opts1 & LAST_FRAG == 0
        }),
{
    let e = spec_rx_initial_opts1(index);
    lemma_ring_word(e);
}

proof fn lemma_ring_word(e: u32)
    by (bit_vector)
    requires
        e == 0u32 || e == 0x4000_0000u32,
    ensures
        ({
            let w = 0x8000_0000u32 | (e & 0x4000_0000u32) | (0x3fffu32 & 0x3fffu32);
            &&& w & 0x8000_0000u32 != 0
            &&& (w & 0x4000_0000u32 != 0) == (e == 0x4000_0000u32)
            &&& w & 0x3fffu32 == 0x3fffu32
            &&& w & 0x2000_0000u32 == 0
            &&& w & 0x1000_0000u32 == 0
        }),
{
}

/// The outstanding count survives a wrap of the counters: if `cur` is `dirty` advanced by `k`
/// (modulo 2^32), then `k` descriptors are outstanding.
pub proof fn lemma_outstanding_across_wrap(cur: u32, dirty: u32, k: nat)
    requires
        k < 0x1_0000_0000,
        cur == (dirty + k) % 0x1_0000_0000,
    ensures
        (cur as int - dirty as int + 0x1_0000_0000) % 0x1_0000_0000 == k,
{
}

} // verus!
