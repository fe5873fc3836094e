use coral_drivers::r8169::tx::{
    is_owned_by_nic, last_fragment_word, release_word, single_descriptor_word, PublishStep,
    DESC_OWN, FIRST_FRAG, LAST_FRAG, PUBLISH_SEQUENCE, RING_END,
};

#[test]
fn the_descriptor_ownership_bits_match_linux() {
    assert_eq!(DESC_OWN, 1 << 31);
    assert_eq!(RING_END, 1 << 30);
    assert_eq!(FIRST_FRAG, 1 << 29);
    assert_eq!(LAST_FRAG, 1 << 28);
    let all = [DESC_OWN, RING_END, FIRST_FRAG, LAST_FRAG];
    for (i, a) in all.iter().enumerate() {
        assert_eq!(a.count_ones(), 1);
        for b in &all[i + 1..] {
            assert_eq!(a & b, 0, "{a:#x} and {b:#x} overlap");
        }
    }
}

#[test]
fn the_publication_sequence_is_linuxs_order() {
    assert_eq!(
        PUBLISH_SEQUENCE,
        [
            PublishStep::MarkLastFragment,
            PublishStep::BarrierBeforeRelease,
            PublishStep::ReleaseFirstDescriptor,
            PublishStep::BarrierBeforeTailUpdate,
            PublishStep::PublishTail,
            PublishStep::Doorbell,
        ]
    );
}

#[test]
fn the_chain_is_terminated_before_it_is_released() {
    let last = PUBLISH_SEQUENCE.iter().position(|s| *s == PublishStep::MarkLastFragment).unwrap();
    let rel = PUBLISH_SEQUENCE.iter().position(|s| *s == PublishStep::ReleaseFirstDescriptor).unwrap();
    assert!(last < rel, "LastFrag must be written before DescOwn");
}

#[test]
fn each_barrier_immediately_precedes_the_publication_it_protects() {
    let at = |s| PUBLISH_SEQUENCE.iter().position(|x| *x == s).unwrap();
    assert_eq!(at(PublishStep::BarrierBeforeRelease) + 1, at(PublishStep::ReleaseFirstDescriptor));
    assert_eq!(at(PublishStep::BarrierBeforeTailUpdate) + 1, at(PublishStep::PublishTail));
    assert_ne!(PublishStep::BarrierBeforeRelease, PublishStep::BarrierBeforeTailUpdate);
}

#[test]
fn the_tail_is_published_after_the_release_and_the_doorbell_is_last() {
    let at = |s| PUBLISH_SEQUENCE.iter().position(|x| *x == s).unwrap();
    assert!(at(PublishStep::ReleaseFirstDescriptor) < at(PublishStep::PublishTail));
    assert_eq!(at(PublishStep::Doorbell), PUBLISH_SEQUENCE.len() - 1,
               "the doorbell is an optimisation, not the release — the NIC already owns the chain");
}

#[test]
fn the_release_word_carries_ownership_and_first_fragment_together() {
    let w = release_word(0x1234);
    assert_eq!(w & DESC_OWN, DESC_OWN);
    assert_eq!(w & FIRST_FRAG, FIRST_FRAG);
    assert_eq!(w & 0xffff, 0x1234, "the existing opts1 survives");
    assert_eq!(w & LAST_FRAG, 0, "a multi-descriptor head is not the last fragment");
}

#[test]
fn only_the_first_descriptor_is_released_to_the_nic() {
    let w = last_fragment_word(0x99);
    assert_eq!(w & LAST_FRAG, LAST_FRAG);
    assert_eq!(w & DESC_OWN, 0, "the tail must NOT be released on its own");
    assert!(!is_owned_by_nic(w));
    assert!(is_owned_by_nic(release_word(0)));
}

#[test]
fn a_single_descriptor_packet_is_both_first_and_last() {
    let w = single_descriptor_word(0);
    assert_eq!(w & (DESC_OWN | FIRST_FRAG | LAST_FRAG), DESC_OWN | FIRST_FRAG | LAST_FRAG);
}
