//! The transmit path: the order in which a packet becomes the NIC's to send, and the
//! descriptor words written along the way.

use vstd::prelude::*;

verus! {

/// The descriptor belongs to the NIC; setting it is the release.
pub const DESC_OWN: u32 = 0x8000_0000;
/// The last descriptor of the ring.
pub const RING_END: u32 = 0x4000_0000;
/// First and last fragment of a packet.
pub const FIRST_FRAG: u32 = 0x2000_0000;
pub const LAST_FRAG: u32 = 0x1000_0000;

/// One step of publishing a packet.
#[derive(Debug, Clone, Copy, PartialEq, Eq)]
pub enum PublishStep {
    /// The chain gets its terminator (`LastFrag`) before it is released.
    MarkLastFragment,
    /// Descriptor writes complete, as seen by the device, before the release.
    BarrierBeforeRelease,
    /// One write of `DescOwn | FirstFrag` to the first descriptor: the release.
    ReleaseFirstDescriptor,
    /// Descriptor changes are visible to the completion path before the new tail.
    BarrierBeforeTailUpdate,
    /// Publish the new tail to the completion path.
    PublishTail,
    /// Tell the NIC to look.
    Doorbell,
}

/// The publication sequence, in order.
pub const PUBLISH_SEQUENCE: [PublishStep; 6] = [
    PublishStep::MarkLastFragment,
    PublishStep::BarrierBeforeRelease,
    PublishStep::ReleaseFirstDescriptor,
    PublishStep::BarrierBeforeTailUpdate,
    PublishStep::PublishTail,
    PublishStep::Doorbell,
];

/// The `opts1` written to the first descriptor at release: `DescOwn` and `FirstFrag` together.
pub open spec fn spec_release_word(existing_opts1: u32) -> u32 {
    existing_opts1 | DESC_OWN | FIRST_FRAG
}

/// The release word: the existing `opts1` with `DescOwn` and `FirstFrag` set in one OR.
pub fn release_word(existing_opts1: u32) -> (word: u32)
    ensures
        word == spec_release_word(existing_opts1),
{
    existing_opts1 | DESC_OWN | FIRST_FRAG
}

/// The `opts1` for the last descriptor of a chain: `LastFrag` and not `DescOwn`.
pub fn last_fragment_word(existing_opts1: u32) -> (word: u32)
    ensures
        word == existing_opts1 | LAST_FRAG,
{
    existing_opts1 | LAST_FRAG
}

/// Whether a descriptor is currently the NIC's.
pub fn is_owned_by_nic(opts1: u32) -> (owned: bool)
    ensures
        owned == (opts1 & DESC_OWN != 0),
{
    opts1 & DESC_OWN != 0
}

/// A single-descriptor packet is both the first and the last fragment.
pub fn single_descriptor_word(existing_opts1: u32) -> (word: u32)
    ensures
        word == spec_release_word(existing_opts1) | LAST_FRAG,
{
    release_word(existing_opts1) | LAST_FRAG
}

proof fn lemma_tx_words(e: u32)
    by (bit_vector)
    ensures
        (e | 0x8000_0000u32 | 0x2000_0000u32) & 0x8000_0000u32 != 0,
        (e | 0x8000_0000u32 | 0x2000_0000u32) & 0x2000_0000u32 != 0,
        (e | 0x8000_0000u32 | 0x2000_0000u32) & 0x0fff_ffffu32 == e & 0x0fff_ffffu32,
        (e | 0x1000_0000u32) & 0x1000_0000u32 != 0,
        (e | 0x1000_0000u32) & 0x8000_0000u32 == e & 0x8000_0000u32,
        ((e | 0x8000_0000u32 | 0x2000_0000u32) | 0x1000_0000u32) & 0xb000_0000u32 == 0xb000_0000u32,
{
}

/// The release word makes the NIC the owner and marks the first fragment while keeping every
/// lower bit of the existing word; the last-fragment word marks the end without releasing
/// anything; the single-descriptor word carries all three markings.
pub proof fn lemma_tx_word_markings(existing_opts1: u32)
    ensures
        spec_release_word(existing_opts1) & DESC_OWN != 0,
        spec_release_word(existing_opts1) & FIRST_FRAG != 0,
        spec_release_word(existing_opts1) & 0x0fff_ffff == existing_opts1 & 0x0fff_ffff,
        (existing_opts1 | LAST_FRAG) & LAST_FRAG != 0,
        (existing_opts1 | LAST_FRAG) & DESC_OWN == existing_opts1 & DESC_OWN,
        (spec_release_word(existing_opts1) | LAST_FRAG) & (DESC_OWN | FIRST_FRAG | LAST_FRAG)
            == DESC_OWN | FIRST_FRAG | LAST_FRAG,
{
    lemma_tx_words(existing_opts1);
    assert(DESC_OWN | FIRST_FRAG | LAST_FRAG == 0xb000_0000u32) by (bit_vector);
}

/// Releasing a TX descriptor only adds bits: every bit of the existing word stays set
/// (RingEnd included, so the last descriptor still wraps the ring), every bit other than
/// DescOwn and FirstFrag is exactly as it was, and both of those are set.
pub proof fn lemma_release_only_adds_bits(existing_opts1: u32)
    by (bit_vector)
    ensures
        spec_release_word(existing_opts1) & existing_opts1 == existing_opts1,
        spec_release_word(existing_opts1) & RING_END == existing_opts1 & RING_END,
        spec_release_word(existing_opts1) & !(DESC_OWN | FIRST_FRAG) == existing_opts1 & !(
        DESC_OWN | FIRST_FRAG),
        spec_release_word(existing_opts1) & (DESC_OWN | FIRST_FRAG) == DESC_OWN | FIRST_FRAG,
{
}

} // verus!
