//! The receive path: whether a descriptor's packet may be delivered, how long it is, and which
//! error counters it bumps, all decided from one status word.

use vstd::prelude::*;

verus! {

/// Receive watchdog timeout: the frame did not arrive completely.
pub const RX_RWT: u32 = 0x0040_0000;
/// The descriptor carries an error of some kind.
pub const RX_RES: u32 = 0x0020_0000;
/// The frame was shorter than the minimum.
pub const RX_RUNT: u32 = 0x0010_0000;
/// The frame's checksum did not match.
pub const RX_CRC: u32 = 0x0008_0000;
/// First and last fragment.
pub const FIRST_FRAG: u32 = 0x2000_0000;
pub const LAST_FRAG: u32 = 0x1000_0000;
/// Length of the frame check sequence.
pub const ETH_FCS_LEN: u16 = 4;
/// The packet length: fourteen bits of the status word.
pub const LEN_MASK: u32 = 0x3fff;

/// What the driver does with one received descriptor.
#[derive(Debug, Clone, Copy, PartialEq, Eq)]
pub enum RxVerdict {
    /// Deliver it to the stack.
    Deliver,
    /// Release the descriptor without delivering.
    Drop,
}

/// Statistics one errored descriptor contributes; both counters can be bumped at once.
#[derive(Debug, Clone, Copy, PartialEq, Eq, Default)]
pub struct RxErrorCounts {
    pub length_errors: u32,
    pub crc_errors: u32,
}

/// The counters a descriptor bumps: RWT and RUNT are both length errors, CRC is a CRC error.
pub fn error_counts(status: u32) -> (counts: RxErrorCounts)
    ensures
        counts.length_errors == (if status & (RX_RWT | RX_RUNT) != 0 {
            1u32
        } else {
            0u32
        }),
        counts.crc_errors == (if status & RX_CRC != 0 {
            1u32
        } else {
            0u32
        }),
{
    RxErrorCounts {
        length_errors: if status & (RX_RWT | RX_RUNT) != 0 {
            1
        } else {
            0
        },
        crc_errors: if status & RX_CRC != 0 {
            1
        } else {
            0
        },
    }
}

/// A frame is fragmented unless it is both the first and the last segment.
pub open spec fn spec_is_fragmented(status: u32) -> bool {
    status & (FIRST_FRAG | LAST_FRAG) != (FIRST_FRAG | LAST_FRAG)
}

/// Whether the descriptor holds only part of a frame.
pub fn is_fragmented(status: u32) -> (fragmented: bool)
    ensures
        fragmented == spec_is_fragmented(status),
{
    status & (FIRST_FRAG | LAST_FRAG) != (FIRST_FRAG | LAST_FRAG)
}

/// The payload length: fourteen bits of the status word, less the four-byte frame check
/// sequence unless it is kept, never below zero.
pub fn packet_len(status: u32, keep_fcs: bool) -> (len: u16)
    ensures
        len == (if keep_fcs {
            status & LEN_MASK
        } else if status & LEN_MASK >= ETH_FCS_LEN {
            ((status & LEN_MASK) - ETH_FCS_LEN) as u32
        } else {
            0u32
        }),
{
    proof {
        lemma_len_field_bound(status);
    }
    let raw = (status & LEN_MASK) as u16;
    if keep_fcs {
        raw
    } else {
        raw.saturating_sub(ETH_FCS_LEN)
    }
}

proof fn lemma_len_field_bound(status: u32)
    by (bit_vector)
    ensures
        status & 0x3fffu32 <= 0x3fffu32,
{
}

/// The delivery decision. Without `rx_all` any flagged error drops the frame. With it, an
/// errored frame is still dropped when it was truncated (RWT) or when the error is unclassified
/// (neither RUNT nor CRC). A fragment is always dropped.
pub open spec fn spec_verdict(status: u32, rx_all: bool) -> RxVerdict {
    if status & RX_RES != 0 && (!rx_all || status & RX_RWT != 0 || status & (RX_RUNT | RX_CRC)
        == 0) {
        RxVerdict::Drop
    } else if spec_is_fragmented(status) {
        RxVerdict::Drop
    } else {
        RxVerdict::Deliver
    }
}

/// Whether this descriptor's packet may be delivered.
pub fn verdict(status: u32, rx_all: bool) -> (v: RxVerdict)
    ensures
        v == spec_verdict(status, rx_all),
{
    if status & RX_RES != 0 {
        if !rx_all {
            return RxVerdict::Drop;
        }
        if status & RX_RWT != 0 || status & (RX_RUNT | RX_CRC) == 0 {
            return RxVerdict::Drop;
        }
    }
    if is_fragmented(status) {
        return RxVerdict::Drop;
    }
    RxVerdict::Deliver
}

} // verus!
