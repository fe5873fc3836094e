use coral_drivers::r8169::chip::{identify, txconfig_is_pci_read_failure, xid_from_txconfig, MacVersion,
                       ChipInfo, chip_infos};

#[test]
fn the_xid_mask_drops_bits_four_and_five() {
    assert_eq!(xid_from_txconfig(0xfff0_0000), 0xfcf);
    assert_eq!(xid_from_txconfig(0x4c0 << 20), 0x4c0);
    assert_ne!(xid_from_txconfig(0xfff0_0000), 0xfff);
}

#[test]
fn an_all_ones_txconfig_is_a_dead_bus_not_a_chip() {
    assert!(txconfig_is_pci_read_failure(u32::MAX));
    assert!(!txconfig_is_pci_read_failure(0x4c0 << 20));
}

#[test]
fn the_z83_part_identifies_as_8168g_ver_40() {
    let c = identify(0x4c0, true);
    assert_eq!(c.version, MacVersion(40));
    assert_eq!(c.name, "RTL8168g/8111g");
}

#[test]
fn without_gmii_two_versions_are_redirected() {
    assert_eq!(identify(0x509, true).version, MacVersion(42));
    assert_eq!(identify(0x509, false).version, MacVersion(43));
    assert_eq!(identify(0x509, false).name, "RTL8106eus");
    assert_eq!(identify(0x541, true).version, MacVersion(46));
    assert_eq!(identify(0x541, false).version, MacVersion(48));
    assert_eq!(identify(0x541, false).name, "RTL8107e");
    assert_eq!(identify(0x4c0, true).version, identify(0x4c0, false).version);
}

#[test]
fn order_decides_when_two_rows_match() {
    assert_eq!(identify(0x2c1, true).version, MacVersion(32), "the narrower row must win");
    assert_eq!(identify(0x2c0, true).version, MacVersion(33));
    let infos = chip_infos();
    let matching: Vec<&ChipInfo> = infos.iter().filter(|c| 0x2c1 & c.mask == c.val).collect();
    assert!(matching.len() >= 2, "expected an ambiguous XID, got {matching:?}");
}

#[test]
fn the_table_ends_in_a_catch_all_that_matches_everything() {
    let infos = chip_infos();
    let last = infos.last().expect("table is not empty");
    assert_eq!((last.mask, last.val), (0x000, 0x000), "the final row must match anything");
    assert_eq!(last.version, MacVersion::none());
    assert_eq!(identify(0xabc, true).version, MacVersion::none());
}

#[test]
fn extended_is_a_marker_not_a_chip() {
    assert_eq!(identify(0x7c8, true).version, MacVersion::extended());
    assert_ne!(MacVersion::extended(), MacVersion::none());
}

#[test]
fn the_whole_table_was_ported_not_a_subset() {
    assert_eq!(chip_infos().len(), 56);
    let named = chip_infos().iter().filter(|c| c.name != "(unnamed)").count();
    assert_eq!(named, 54);
}
