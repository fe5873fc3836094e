use coral_drivers::r8169::phy::{
    apply_modify, param_sequence, PagedModify, PhyOp, adjust_10m_aldps, PARAM_PAGE,
    PARAM_SELECT_REG, PARAM_VALUE_REG,
};

#[test]
fn modify_clears_the_mask_then_sets_the_set() {
    assert_eq!(apply_modify(0xffff, 1 << 15, 0), 0x7fff);
    assert_eq!(apply_modify(0x0000, 0, 1 << 15), 0x8000);
    assert_eq!(apply_modify(0x1234, 0x00f0, 0x0005), 0x1205);
}

#[test]
fn the_mask_and_set_arguments_have_opposite_effects() {
    let clear_15 = apply_modify(0xffff, 1 << 15, 0);
    let set_15 = apply_modify(0x0000, 0, 1 << 15);
    assert_eq!(clear_15 & (1 << 15), 0, "mask position CLEARS");
    assert_eq!(set_15 & (1 << 15), 1 << 15, "set position SETS");
    assert_ne!(clear_15 & (1 << 15), set_15 & (1 << 15));
    assert_eq!(apply_modify(0x0000, 0xffff, 0x0001), 0x0001);
}

#[test]
fn the_indirect_parameter_file_uses_linuxs_page_and_registers() {
    assert_eq!(PARAM_PAGE, 0x0a43);
    assert_eq!(PARAM_SELECT_REG, 0x13);
    assert_eq!(PARAM_VALUE_REG, 0x14);
}

#[test]
fn a_parameter_write_selects_page_then_selector_then_value_then_restores() {
    let ops = param_sequence(0x8012, 0x0000, 0x8000);
    assert_eq!(
        ops,
        [
            PhyOp::SelectPage(0x0a43),
            PhyOp::Write { reg: 0x13, val: 0x8012 },
            PhyOp::Modify { reg: 0x14, mask: 0x0000, set: 0x8000 },
            PhyOp::RestorePage,
        ]
    );
    let sel = ops.iter().position(|o| matches!(o, PhyOp::Write { reg: 0x13, .. })).unwrap();
    let val = ops.iter().position(|o| matches!(o, PhyOp::Modify { reg: 0x14, .. })).unwrap();
    assert!(sel < val, "the selector must be written before the value is modified");
    assert!(matches!(ops[0], PhyOp::SelectPage(_)), "the page is selected first");
    assert_eq!(ops[ops.len() - 1], PhyOp::RestorePage, "and restored last");
}

#[test]
fn the_aldps_sequence_matches_linux_line_by_line() {
    assert_eq!(adjust_10m_aldps().len(), 4, "a dropped step is a length mismatch, not an absence");
    assert_eq!(adjust_10m_aldps()[0], PagedModify { page: 0x0bcc, reg: 0x14, mask: 1 << 8, set: 0 });
    assert_eq!(adjust_10m_aldps()[1],
               PagedModify { page: 0x0a44, reg: 0x11, mask: 0, set: (1 << 7) | (1 << 6) });
    assert_eq!(adjust_10m_aldps()[2],
               PagedModify { page: 0x0a43, reg: 0x8084, mask: 0x6000, set: 0x0000 });
    assert_eq!(adjust_10m_aldps()[3],
               PagedModify { page: 0x0a43, reg: 0x10, mask: 0x0000, set: 0x1003 });
}

#[test]
fn the_aldps_sequence_clears_one_bit_and_sets_two() {
    let clear = adjust_10m_aldps()[0];
    assert_eq!(clear.mask.count_ones(), 1);
    assert_eq!(clear.set, 0, ":732 clears BIT(8) and sets nothing");
    let set = adjust_10m_aldps()[1];
    assert_eq!(set.mask, 0, ":733 clears nothing");
    assert_eq!(set.set.count_ones(), 2, "and sets BIT(7) | BIT(6)");
    assert_eq!(set.set, 0xc0);
}

use coral_drivers::r8169::phy::{rtl8168g_1_hw_phy_config, Phy, PhyTrace, SWR_EFFICIENCY};

#[derive(Debug, PartialEq, Eq, Clone, Copy)]
enum Op {
    Read { page: u16, reg: u16, got: u16 },
    Modify { page: u16, reg: u16, mask: u16, set: u16 },
    Write { reg: u16, val: u16 },
}

struct ScriptedPhy {
    reads: Vec<((u16, u16), u16)>,
    log: Vec<Op>,
}

impl ScriptedPhy {
    fn new(reads: &[((u16, u16), u16)]) -> Self {
        ScriptedPhy { reads: reads.to_vec(), log: Vec::new() }
    }
    fn modifies_of(&self, page: u16, reg: u16) -> Vec<(u16, u16)> {
        self.log.iter().filter_map(|o| match o {
            Op::Modify { page: p, reg: r, mask, set } if *p == page && *r == reg => Some((*mask, *set)),
            _ => None,
        }).collect()
    }
    fn writes(&self) -> Vec<(u16, u16)> {
        self.log.iter().filter_map(|o| match o {
            Op::Write { reg, val } => Some((*reg, *val)),
            _ => None,
        }).collect()
    }
}

impl Phy for ScriptedPhy {
    fn trace(&self) -> PhyTrace {
        unreachable!("the access trace is a proof model and is never evaluated")
    }
    fn read_paged(&mut self, page: u16, reg: u16) -> u16 {
        let got = self.reads.iter().find(|((p, r), _)| *p == page && *r == reg)
            .unwrap_or_else(|| panic!("unscripted read of page {page:#06x} reg {reg:#04x}")).1;
        self.log.push(Op::Read { page, reg, got });
        got
    }
    fn modify_paged(&mut self, page: u16, reg: u16, mask: u16, set: u16) {
        self.log.push(Op::Modify { page, reg, mask, set });
    }
    fn write(&mut self, reg: u16, val: u16) {
        self.log.push(Op::Write { reg, val });
    }
}

fn run(first_bit8: bool, second_bit8: bool) -> ScriptedPhy {
    let b = |set| if set { 1u16 << 8 } else { 0 };
    let mut phy = ScriptedPhy::new(&[
        ((0x0a46, 0x10), b(first_bit8)),
        ((0x0a46, 0x13), b(second_bit8)),
    ]);
    rtl8168g_1_hw_phy_config(&mut phy);
    phy
}

#[test]
fn the_first_conditional_is_inverted_and_the_second_is_direct() {
    assert_eq!(run(true, false).modifies_of(0x0bcc, 0x12), vec![(1 << 15, 0)]);
    assert_eq!(run(false, false).modifies_of(0x0bcc, 0x12), vec![(0, 1 << 15)]);
    assert_eq!(run(false, true).modifies_of(0x0c41, 0x15), vec![(0, 1 << 1)]);
    assert_eq!(run(false, false).modifies_of(0x0c41, 0x15), vec![(1 << 1, 0)]);
}

#[test]
fn the_same_input_bit_drives_the_two_blocks_oppositely() {
    let set = run(true, true);
    let (m1, s1) = set.modifies_of(0x0bcc, 0x12)[0];
    let (m2, s2) = set.modifies_of(0x0c41, 0x15)[0];
    assert!(m1 != 0 && s1 == 0, "block one CLEARS when the bit is set");
    assert!(m2 == 0 && s2 != 0, "block two SETS when the same bit is set");
}

#[test]
fn the_unconditional_modifies_match_linux() {
    let phy = run(false, false);
    assert_eq!(
        phy.modifies_of(0x0a44, 0x11),
        vec![(0, (1 << 3) | (1 << 2)), (0, (1 << 7) | (1 << 6))],
        "auto speed down at :757, then the aldps adjustment at :733"
    );
    assert_eq!(phy.modifies_of(0x0a4b, 0x11), vec![(0, 1 << 2)], "EEE auto-fallback");
    assert_eq!(phy.modifies_of(0x0c42, 0x11), vec![(1 << 13, 1 << 14)],
               ":768 is the one call that both clears and sets");
}

#[test]
fn the_swr_block_is_written_verbatim_and_restores_the_page() {
    assert_eq!(SWR_EFFICIENCY.len(), 10);
    let phy = run(false, false);
    let w = phy.writes();
    let tail = &w[w.len() - 10..];
    assert_eq!(tail, SWR_EFFICIENCY.as_slice());
    assert_eq!(tail[tail.len() - 1], (0x1f, 0x0000), "the block leaves no page behind");
}

#[test]
fn the_swr_block_pulses_a_register_rather_than_repeating_itself_by_accident() {
    let at_0x14: Vec<u16> = SWR_EFFICIENCY.iter().filter(|(r, _)| *r == 0x14).map(|(_, v)| *v).collect();
    assert_eq!(at_0x14, vec![0x5065, 0xd065, 0x1065, 0x9065, 0x1065]);
    assert_eq!(at_0x14[0] ^ at_0x14[1], 0x8000);
    assert_eq!(at_0x14[2] ^ at_0x14[3], 0x8000);
    assert_eq!(at_0x14[2], at_0x14[4], "the third write returns to the pre-pulse value");
}

#[test]
#[should_panic(expected = "unscripted read")]
fn an_unscripted_read_is_refused_by_name() {
    let mut phy = ScriptedPhy::new(&[((0x0a46, 0x10), 0)]);
    rtl8168g_1_hw_phy_config(&mut phy);
}

use coral_drivers::r8169::phy::{config_eee_phy, config_eee_phy_8168h_extra, disable_aldps};

#[test]
fn the_two_trailing_helpers_match_linux() {
    assert_eq!(disable_aldps(), PagedModify { page: 0x0a43, reg: 0x10, mask: 1 << 2, set: 0 });
    assert_eq!(config_eee_phy(), PagedModify { page: 0x0a43, reg: 0x11, mask: 0, set: 1 << 4 });
    assert!(disable_aldps().mask != 0 && disable_aldps().set == 0);
    assert!(config_eee_phy().mask == 0 && config_eee_phy().set != 0);
}

#[test]
fn the_parameter_page_also_carries_direct_registers() {
    assert_eq!(disable_aldps().page, PARAM_PAGE);
    assert_eq!(config_eee_phy().page, PARAM_PAGE);
    for r in [disable_aldps().reg, config_eee_phy().reg] {
        assert!(r != 0x13 && r != 0x14, "{r:#x} is a direct register, not the selector/value pair");
    }
}

#[test]
fn the_8168h_variant_extends_rather_than_replaces() {
    assert_eq!(config_eee_phy_8168h_extra().len(), 2);
    assert_eq!(config_eee_phy_8168h_extra()[0],
               PagedModify { page: 0x0a4a, reg: 0x11, mask: 0x0000, set: 0x0200 });
    assert_eq!(config_eee_phy_8168h_extra()[1],
               PagedModify { page: 0x0a42, reg: 0x14, mask: 0x0000, set: 0x0080 });
    for e in config_eee_phy_8168h_extra() {
        assert_ne!((e.page, e.reg), (config_eee_phy().page, config_eee_phy().reg));
    }
}

#[test]
fn the_config_runs_both_helpers_at_the_end_in_order() {
    let phy = run(false, false);
    let mods: Vec<(u16, u16, u16, u16)> = phy.log.iter().filter_map(|o| match o {
        Op::Modify { page, reg, mask, set } => Some((*page, *reg, *mask, *set)),
        _ => None,
    }).collect();
    let last_two = &mods[mods.len() - 2..];
    assert_eq!(last_two[0], (0x0a43, 0x10, 1 << 2, 0), "disable_aldps at :782");
    assert_eq!(last_two[1], (0x0a43, 0x11, 0, 1 << 4), "config_eee_phy at :783");
}

#[test]
fn the_aldps_register_is_written_twice_with_non_overlapping_bits() {
    let phy = run(false, false);
    let at: Vec<(u16, u16)> = phy.modifies_of(0x0a43, 0x10);
    assert_eq!(at, vec![(0x0000, 0x1003), (1 << 2, 0)], "the adjustment, then the disable");
    let (adjust_mask, adjust_set) = at[0];
    let (disable_mask, disable_set) = at[1];
    assert_eq!(adjust_set & disable_mask, 0, "the disable must not clear what the adjustment set");
    assert_eq!(disable_set & adjust_mask, 0);
}
