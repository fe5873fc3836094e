//! The RTL8169 RX/TX descriptor format: two 32-bit option words, then a 64-bit address.

use vstd::prelude::*;

verus! {

/// A descriptor is 16 bytes: `opts1`, `opts2`, `addr`.
pub const DESC_BYTES: usize = 16;
/// Byte offsets within a descriptor.
pub const OFF_OPTS1: usize = 0;
pub const OFF_OPTS2: usize = 4;
pub const OFF_ADDR: usize = 8;

/// The descriptor is owned by the NIC, bit 31.
pub const DESC_OWN: u32 = 0x8000_0000;
/// The last descriptor of the ring, bit 30.
pub const RING_END: u32 = 0x4000_0000;
/// First segment of a packet, bit 29.
pub const FIRST_FRAG: u32 = 0x2000_0000;
/// Final segment of a packet, bit 28.
pub const LAST_FRAG: u32 = 0x1000_0000;
/// The buffer length: the low fourteen bits of `opts1`.
pub const OPTS1_LEN_MASK: u32 = 0x3fff;
/// The receive buffer size advertised on every RX descriptor: 16383 bytes, the whole length
/// field.
pub const RX_BUF_SIZE: u32 = 0x3fff;

/// The `opts1` that hands an RX buffer to the NIC: `DescOwn`, the existing `RingEnd` bit, and
/// the buffer length masked to the length field, as one word.
pub open spec fn spec_rx_opts1_hand_to_nic(existing_opts1: u32, buf_len: u32) -> u32 {
    DESC_OWN | (existing_opts1 & RING_END) | (buf_len & OPTS1_LEN_MASK)
}

proof fn lemma_hand_to_nic_fields(existing_opts1: u32, buf_len: u32)
    by (bit_vector)
    ensures
        ({
            let w = 0x8000_0000u32 | (existing_opts1 & 0x4000_0000u32) | (buf_len & 0x3fffu32);
            &&& w & 0x8000_0000u32 != 0
            &&& w & 0x4000_0000u32 == existing_opts1 & 0x4000_0000u32
            &&& w & 0x2000_0000u32 == 0
            &&& w & 0x1000_0000u32 == 0
            &&& w & 0x3fffu32 == buf_len & 0x3fffu32
        }),
{
}

/// Build an RX descriptor's `opts1`: hand the buffer to the NIC, preserving the ring-end bit
/// (which belongs to the descriptor's position) and never letting the length reach a flag bit.
pub fn rx_opts1_hand_to_nic(existing_opts1: u32, buf_len: u32) -> (opts1: u32)
    ensures
        opts1 == spec_rx_opts1_hand_to_nic(existing_opts1, buf_len),
        opts1 & DESC_OWN != 0,
        opts1 & RING_END == existing_opts1 & RING_END,
        opts1 & FIRST_FRAG == 0,
        opts1 & LAST_FRAG == 0,
        opts1 & OPTS1_LEN_MASK == buf_len & OPTS1_LEN_MASK,
{
    proof {
        lemma_hand_to_nic_fields(existing_opts1, buf_len);
    }
    let eor = existing_opts1 & RING_END;
    DESC_OWN | eor | (buf_len & OPTS1_LEN_MASK)
}

/// Whether this descriptor belongs to the NIC.
pub fn is_owned_by_nic(opts1: u32) -> (owned: bool)
    ensures
        owned == (opts1 & DESC_OWN != 0),
{
    opts1 & DESC_OWN != 0
}

} // verus!
