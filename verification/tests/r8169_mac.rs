use std::collections::BTreeMap;

use coral_drivers::r8169::chip::MacVersion;
use coral_drivers::r8169::eri::{self, EriError};
use coral_drivers::r8169::init::{Bus, BusTrace};
use coral_drivers::r8169::mac::{self, HwMacSource, MacAddr, MacSource};

#[derive(Debug, PartialEq, Eq, Clone, Copy)]
enum Op {
    R8(u32, u8),
    W32(u32, u32),
    R32(u32, u32),
    Delay(u32),
}

struct Fake {
    log: Vec<Op>,
    bytes: BTreeMap<u32, u8>,
    eridr: Vec<u32>,
    settle_polls: u32,
    never_settles: bool,
    polls_since_cmd: u32,
    last_cmd_was_write: bool,
}

impl Fake {
    fn new() -> Self {
        Fake {
            log: Vec::new(),
            bytes: BTreeMap::new(),
            eridr: Vec::new(),
            settle_polls: 0,
            never_settles: false,
            polls_since_cmd: 0,
            last_cmd_was_write: false,
        }
    }
    fn with_bytes(mut self, base: u32, vals: &[u8]) -> Self {
        for (i, v) in vals.iter().enumerate() {
            self.bytes.insert(base + i as u32, *v);
        }
        self
    }
    fn with_eridr(mut self, vals: &[u32]) -> Self {
        self.eridr = vals.to_vec();
        self.eridr.reverse();
        self
    }
    fn ops(&self) -> &[Op] {
        &self.log
    }
    fn writes(&self) -> Vec<(u32, u32)> {
        self.log
            .iter()
            .filter_map(|o| match o {
                Op::W32(r, v) => Some((*r, *v)),
                _ => None,
            })
            .collect()
    }
}

impl Bus for Fake {
    fn trace(&self) -> BusTrace {
        unreachable!("the access trace is a proof model and is never evaluated")
    }
    fn r8(&mut self, reg: u32) -> u8 {
        let v = *self
            .bytes
            .get(&reg)
            .unwrap_or_else(|| panic!("unscripted byte read at {reg:#x}"));
        self.log.push(Op::R8(reg, v));
        v
    }
    fn w8(&mut self, reg: u32, _val: u8) {
        panic!("unexpected w8 at {reg:#x}")
    }
    fn r16(&mut self, reg: u32) -> u16 {
        panic!("unexpected r16 at {reg:#x}")
    }
    fn w16(&mut self, reg: u32, _val: u16) {
        panic!("unexpected w16 at {reg:#x}")
    }
    fn r32(&mut self, reg: u32) -> u32 {
        let v = match reg {
            eri::ERIAR => {
                self.polls_since_cmd += 1;
                let busy = self.never_settles || self.polls_since_cmd <= self.settle_polls;
                let flag_set = if self.last_cmd_was_write { busy } else { !busy };
                if flag_set {
                    eri::ERIAR_FLAG
                } else {
                    0
                }
            }
            eri::ERIDR => self.eridr.pop().expect("unscripted ERIDR read"),
            other => panic!("unexpected r32 at {other:#x}"),
        };
        self.log.push(Op::R32(reg, v));
        v
    }
    fn w32(&mut self, reg: u32, val: u32) {
        if reg == eri::ERIAR {
            self.polls_since_cmd = 0;
            self.last_cmd_was_write = val & eri::ERIAR_WRITE_CMD != 0;
        }
        self.log.push(Op::W32(reg, val));
    }
    fn delay_us(&mut self, us: u32) {
        self.log.push(Op::Delay(us));
    }
}

#[test]
fn eri_defines_are_the_linux_literals() {
    assert_eq!(eri::ERIDR, 0x70);
    assert_eq!(eri::ERIAR, 0x74);
    assert_eq!(eri::ERIAR_FLAG, 0x8000_0000);
    assert_eq!(eri::ERIAR_WRITE_CMD, 0x8000_0000);
    assert_eq!(eri::ERIAR_READ_CMD, 0x0000_0000);
    assert_eq!(eri::ERIAR_ADDR_BYTE_ALIGN, 4);
    assert_eq!(eri::ERIAR_TYPE_SHIFT, 16);
    assert_eq!(eri::ERIAR_EXGMAC, 0x0000_0000);
    assert_eq!(eri::ERIAR_MSIX, 0x0001_0000);
    assert_eq!(eri::ERIAR_MASK_SHIFT, 12);
    assert_eq!(eri::ERIAR_MASK_0001, 0x0000_1000);
    assert_eq!(eri::ERIAR_MASK_0011, 0x0000_3000);
    assert_eq!(eri::ERIAR_MASK_0100, 0x0000_4000);
    assert_eq!(eri::ERIAR_MASK_0101, 0x0000_5000);
    assert_eq!(eri::ERIAR_MASK_1111, 0x0000_f000);
    assert_eq!(eri::ERI_POLL_N, 100);
    assert_eq!(eri::ERI_POLL_US, 100);
}

#[test]
fn asf_and_oob_are_one_encoding_under_two_names() {
    assert_eq!(eri::ERIAR_ASF, eri::ERIAR_OOB);
    assert_eq!(eri::ERIAR_OOB, 0x0002_0000);
    assert_eq!(
        eri::adjust_ocp_cmd(0, eri::ERIAR_ASF, eri::ADJUST_OCP_MAC_VER),
        eri::adjust_ocp_cmd(0, eri::ERIAR_OOB, eri::ADJUST_OCP_MAC_VER),
    );
}

#[test]
fn bit31_is_both_the_write_command_and_the_busy_flag() {
    assert_eq!(eri::ERIAR_WRITE_CMD, eri::ERIAR_FLAG);
    assert_eq!(eri::ERIAR_READ_CMD, 0);
    assert_eq!(eri::read_cmd_word(0xe0, eri::ERIAR_EXGMAC) & eri::ERIAR_FLAG, 0);
    assert_ne!(
        eri::write_cmd_word(0xe0, eri::ERIAR_MASK_1111, eri::ERIAR_EXGMAC) & eri::ERIAR_FLAG,
        0
    );
}

#[test]
fn command_words_match_hand_assembly() {
    assert_eq!(
        eri::write_cmd_word(0xe0, eri::ERIAR_MASK_1111, eri::ERIAR_EXGMAC),
        0x8000_f0e0
    );
    assert_eq!(eri::read_cmd_word(0xe4, eri::ERIAR_EXGMAC), 0x0000_f0e4);
    assert_eq!(
        eri::write_cmd_word(0x08, eri::ERIAR_MASK_0011, eri::ERIAR_MSIX),
        0x8001_3008
    );
}

#[test]
fn a_read_command_always_carries_the_full_mask() {
    for addr in [0x00u32, 0xe0, 0xe4, 0x1bc] {
        let w = eri::read_cmd_word(addr, eri::ERIAR_EXGMAC);
        assert_eq!(
            w & (0xf << eri::ERIAR_MASK_SHIFT),
            eri::ERIAR_MASK_1111,
            "addr {addr:#x}"
        );
    }
}

#[test]
fn the_ocp_adjustment_fires_only_for_oob_on_version_52() {
    assert_eq!(eri::ADJUST_OCP_OR, 0x3dc0_0000);
    assert_eq!(eri::ADJUST_OCP_MAC_VER, 52);

    let base = eri::read_cmd_word(0xe0, eri::ERIAR_OOB);
    assert_eq!(eri::adjust_ocp_cmd(base, eri::ERIAR_OOB, 52), base | 0x3dc0_0000);
    assert_eq!(eri::adjust_ocp_cmd(base, eri::ERIAR_OOB, 51), base);
    assert_eq!(eri::adjust_ocp_cmd(base, eri::ERIAR_OOB, 53), base);
    let ex = eri::read_cmd_word(0xe0, eri::ERIAR_EXGMAC);
    assert_eq!(eri::adjust_ocp_cmd(ex, eri::ERIAR_EXGMAC, 52), ex);
    assert_eq!(eri::adjust_ocp_cmd(ex, eri::ERIAR_MSIX, 52), ex);
}

#[test]
fn a_write_refusal_names_its_cause_and_touches_nothing() {
    for bad in [0x01u32, 0x02, 0x03, 0xe1, 0xe2, 0xe3] {
        let mut f = Fake::new();
        assert_eq!(
            eri::write(&mut f, bad, eri::ERIAR_MASK_1111, 0, eri::ERIAR_EXGMAC, 40),
            Err(EriError::UnalignedAddr(bad))
        );
        assert!(f.ops().is_empty(), "refused write still drove the bus for {bad:#x}");
    }

    let mut f = Fake::new();
    assert_eq!(
        eri::write(&mut f, 0xe0, 0, 0x1234, eri::ERIAR_EXGMAC, 40),
        Err(EriError::EmptyMask)
    );
    assert!(f.ops().is_empty(), "refused write still drove the bus");

    let mut f = Fake::new();
    assert_eq!(
        eri::write(&mut f, 0xe0, eri::ERIAR_MASK_1111, 0x1234, eri::ERIAR_EXGMAC, 40),
        Ok(())
    );
    assert!(!f.ops().is_empty());
}

#[test]
fn a_write_loads_the_data_register_before_the_command() {
    let mut f = Fake::new();
    f.settle_polls = 2;
    eri::write(&mut f, 0xf4, eri::ERIAR_MASK_1111, 0xdead_beef, eri::ERIAR_EXGMAC, 34).unwrap();
    let w = f.writes();
    assert_eq!(w[0], (eri::ERIDR, 0xdead_beef), "ERIDR must be loaded first");
    assert_eq!(w[1], (eri::ERIAR, 0x8000_f0f4), "then the command word");
    assert_eq!(w.len(), 2, "no further writes");
    let delays: Vec<u32> = f
        .ops()
        .iter()
        .filter_map(|o| match o {
            Op::Delay(us) => Some(*us),
            _ => None,
        })
        .collect();
    assert_eq!(delays, vec![100, 100]);
}

#[test]
fn a_read_takes_the_data_register_only_after_the_flag_sets() {
    let mut f = Fake::new().with_eridr(&[0x1122_3344]);
    f.settle_polls = 1;
    let v = eri::read_exgmac(&mut f, 0xe0, 40).unwrap();
    assert_eq!(v, 0x1122_3344);

    let ops = f.ops();
    assert_eq!(ops[0], Op::W32(eri::ERIAR, 0x0000_f0e0));
    assert_eq!(ops[1], Op::R32(eri::ERIAR, 0), "first poll: not ready");
    assert_eq!(ops[2], Op::Delay(100));
    assert_eq!(ops[3], Op::R32(eri::ERIAR, eri::ERIAR_FLAG), "second poll: ready");
    assert_eq!(ops[4], Op::R32(eri::ERIDR, 0x1122_3344), "ERIDR read LAST");
    assert_eq!(ops.len(), 5);
}

#[test]
fn a_read_timeout_is_named_and_its_linux_sentinel_is_caught_downstream() {
    let mut f = Fake::new();
    f.never_settles = true;
    assert_eq!(eri::read_exgmac(&mut f, 0xe0, 40), Err(EriError::Timeout));
    let polls = f
        .ops()
        .iter()
        .filter(|o| matches!(o, Op::R32(r, _) if *r == eri::ERIAR))
        .count();
    assert_eq!(polls as u32, eri::ERI_POLL_N, "the full budget, no more and no less");

    assert_eq!(eri::LINUX_READ_TIMEOUT_SENTINEL, 0xffff_ffff);
    let poisoned = mac::mac_from_eri_words(
        eri::LINUX_READ_TIMEOUT_SENTINEL,
        eri::LINUX_READ_TIMEOUT_SENTINEL,
    );
    assert_eq!(poisoned, [0xff; 6]);
    assert!(mac::is_multicast(&poisoned), "the multicast bit is what catches it");
    assert!(!mac::is_valid(&poisoned));
}

#[test]
fn is_8168evl_up_has_a_hole_at_39_not_a_boundary() {
    for v in 0u8..=70 {
        let expect = v >= 34 && v != 39 && v <= 52;
        assert_eq!(mac::is_8168evl_up(MacVersion(v)), expect, "ver {v}");
    }
    assert!(mac::is_8168evl_up(MacVersion(38)));
    assert!(!mac::is_8168evl_up(MacVersion(39)), "39 is excluded from inside the range");
    assert!(mac::is_8168evl_up(MacVersion(40)));
}

#[test]
fn is_8125_is_a_plain_lower_bound_at_61() {
    for v in 0u8..=70 {
        assert_eq!(mac::is_8125(MacVersion(v)), v >= 61, "ver {v}");
    }
}

#[test]
fn version_34_is_excluded_from_the_eri_source_it_otherwise_qualifies_for() {
    assert!(
        mac::is_8168evl_up(MacVersion(34)),
        "34 is the predicate's own lower bound"
    );
    assert_eq!(
        mac::hw_mac_source(MacVersion(34)),
        HwMacSource::NoSource,
        "and is excluded from ERI by the extra clause at :5346"
    );
}

#[test]
fn the_hardware_source_table_covers_every_version() {
    for v in 0u8..=70 {
        let expect = if v >= 34 && v != 39 && v <= 52 && v != 34 {
            HwMacSource::Eri
        } else if v >= 61 {
            HwMacSource::Mac0Bkp
        } else {
            HwMacSource::NoSource
        };
        assert_eq!(mac::hw_mac_source(MacVersion(v)), expect, "ver {v}");
    }
    assert_eq!(mac::hw_mac_source(MacVersion(35)), HwMacSource::Eri);
    assert_eq!(mac::hw_mac_source(MacVersion(39)), HwMacSource::NoSource);
    assert_eq!(mac::hw_mac_source(MacVersion(52)), HwMacSource::Eri);
    assert_eq!(mac::hw_mac_source(MacVersion(53)), HwMacSource::NoSource);
    assert_eq!(mac::hw_mac_source(MacVersion(61)), HwMacSource::Mac0Bkp);
}

#[test]
fn the_high_eri_word_contributes_only_two_bytes() {
    assert_eq!(
        mac::mac_from_eri_words(0x3322_1100, 0xbbaa_5544),
        [0x00, 0x11, 0x22, 0x33, 0x44, 0x55]
    );
    assert_eq!(
        mac::mac_from_eri_words(0x3322_1100, 0x0000_5544),
        mac::mac_from_eri_words(0x3322_1100, 0xffff_5544)
    );
}

#[test]
fn the_eri_source_reads_0xe0_then_0xe4() {
    let mut f = Fake::new().with_eridr(&[0x3322_1100, 0x0000_5544]);
    let a = mac::read_mac_address(&mut f, MacVersion(40)).unwrap();
    assert_eq!(a, [0x00, 0x11, 0x22, 0x33, 0x44, 0x55]);
    let cmds: Vec<u32> = f
        .writes()
        .iter()
        .filter(|(r, _)| *r == eri::ERIAR)
        .map(|(_, v)| *v)
        .collect();
    assert_eq!(cmds, vec![0x0000_f0e0, 0x0000_f0e4], "low word first, then high");
}

#[test]
fn the_backup_source_reads_six_bytes_from_0x19e0() {
    assert_eq!(mac::MAC0_BKP, 0x19e0);
    let mut f = Fake::new().with_bytes(0x19e0, &[0x00, 0x11, 0x22, 0x33, 0x44, 0x55]);
    let a = mac::read_mac_address(&mut f, MacVersion(61)).unwrap();
    assert_eq!(a, [0x00, 0x11, 0x22, 0x33, 0x44, 0x55]);
    assert_eq!(
        f.ops(),
        &[
            Op::R8(0x19e0, 0x00),
            Op::R8(0x19e1, 0x11),
            Op::R8(0x19e2, 0x22),
            Op::R8(0x19e3, 0x33),
            Op::R8(0x19e4, 0x44),
            Op::R8(0x19e5, 0x55),
        ]
    );
}

#[test]
fn a_part_with_no_hardware_source_is_not_consulted_at_all() {
    for v in [1u8, 33, 34, 39, 53, 60] {
        let mut f = Fake::new();
        assert_eq!(mac::read_mac_address(&mut f, MacVersion(v)), None, "ver {v}");
        assert!(f.ops().is_empty(), "ver {v} drove the bus for an absent source");
    }
}

#[test]
fn the_cascade_has_four_sources_in_this_order() {
    assert_eq!(mac::MAC_SOURCE_ORDER.len(), 4);
    assert_eq!(
        mac::MAC_SOURCE_ORDER,
        [
            MacSource::Platform,
            MacSource::Hardware,
            MacSource::Mac0,
            MacSource::Random
        ]
    );
}

const GOOD: MacAddr = [0x02, 0x11, 0x22, 0x33, 0x44, 0x55];
const OTHER: MacAddr = [0x02, 0xaa, 0xbb, 0xcc, 0xdd, 0xee];
const THIRD: MacAddr = [0x02, 0x01, 0x02, 0x03, 0x04, 0x05];

#[test]
fn a_platform_address_is_accepted_without_validation() {
    let multicast: MacAddr = [0x01, 0x00, 0x5e, 0x00, 0x00, 0x01];
    assert!(!mac::is_valid(&multicast));
    assert_eq!(
        mac::select_source(Some(multicast), Some(GOOD), OTHER),
        (MacSource::Platform, Some(multicast)),
        "validating the platform source would reject a board's deliberate override"
    );
    let zero: MacAddr = [0; 6];
    assert_eq!(
        mac::select_source(Some(zero), Some(GOOD), OTHER),
        (MacSource::Platform, Some(zero))
    );
}

#[test]
fn the_cascade_falls_through_exactly_as_far_as_it_must() {
    assert_eq!(
        mac::select_source(None, Some(GOOD), OTHER),
        (MacSource::Hardware, Some(GOOD))
    );
    assert_eq!(
        mac::select_source(None, None, OTHER),
        (MacSource::Mac0, Some(OTHER))
    );
    assert_eq!(
        mac::select_source(None, Some([0; 6]), OTHER),
        (MacSource::Mac0, Some(OTHER))
    );
    assert_eq!(
        mac::select_source(None, Some([0xff; 6]), THIRD),
        (MacSource::Mac0, Some(THIRD))
    );
    assert_eq!(mac::select_source(None, None, [0; 6]), (MacSource::Random, None));
    assert_eq!(
        mac::select_source(None, Some([0; 6]), [0xff; 6]),
        (MacSource::Random, None)
    );
}

#[test]
fn address_validity_is_not_multicast_and_not_zero() {
    assert!(mac::is_valid(&GOOD));
    assert!(!mac::is_valid(&[0; 6]), "all zero");
    assert!(!mac::is_valid(&[0xff; 6]), "broadcast, caught as multicast");
    assert!(!mac::is_valid(&[0x01, 0, 0, 0, 0, 1]), "multicast bit in octet 0");
    assert!(mac::is_valid(&[0x02, 0, 0, 0, 0, 0]), "locally administered, unicast");
    assert!(mac::is_valid(&[0x02, 0x01, 0x01, 0x01, 0x01, 0x01]));
}

#[test]
fn the_exgmac_copy_is_shifted_by_two_bytes_not_repeated() {
    let a: MacAddr = [0x00, 0x11, 0x22, 0x33, 0x44, 0x55];
    assert_eq!(
        mac::rar_exgmac_words(&a),
        [
            (0xe0, 0x3322_1100),
            (0xe4, 0x0000_5544),
            (0xf0, 0x1100_0000),
            (0xf4, 0x5544_3322),
        ]
    );
    let w = mac::rar_exgmac_words(&a);
    assert_ne!(w[0].1, w[3].1, "0xf4 is not a copy of 0xe0");
    assert_ne!(w[1].1, w[2].1, "0xf0 is not a copy of 0xe4");
    assert_eq!(w[2].1 & 0xffff, 0, "the low half of 0xf0 is written as zero");
}

#[test]
fn setting_the_address_writes_the_high_half_first_and_commits_each() {
    let mut f = Fake::new().with_bytes(0x37, &[0x0c]);
    let a: MacAddr = [0x00, 0x11, 0x22, 0x33, 0x44, 0x55];
    mac::rar_set(&mut f, &a, MacVersion(40));
    assert_eq!(
        f.ops(),
        &[
            Op::W32(4, 0x0000_5544),
            Op::R8(0x37, 0x0c),
            Op::W32(0, 0x3322_1100),
            Op::R8(0x37, 0x0c),
        ],
        "MAC4 then commit then MAC0 then commit, and nothing else for a non-34 part"
    );
}

#[test]
fn version_34_additionally_writes_the_address_through_eri() {
    let mut f = Fake::new().with_bytes(0x37, &[0x0c]);
    let a: MacAddr = [0x00, 0x11, 0x22, 0x33, 0x44, 0x55];
    mac::rar_set(&mut f, &a, MacVersion(34));
    let cmds: Vec<(u32, u32)> = f
        .writes()
        .into_iter()
        .filter(|(r, _)| *r == eri::ERIDR || *r == eri::ERIAR)
        .collect();
    assert_eq!(
        cmds,
        vec![
            (eri::ERIDR, 0x3322_1100),
            (eri::ERIAR, 0x8000_f0e0),
            (eri::ERIDR, 0x0000_5544),
            (eri::ERIAR, 0x8000_f0e4),
            (eri::ERIDR, 0x1100_0000),
            (eri::ERIAR, 0x8000_f0f0),
            (eri::ERIDR, 0x5544_3322),
            (eri::ERIAR, 0x8000_f0f4),
        ],
        "four writes, in order, each ERIDR-then-ERIAR"
    );

    for v in [33u8, 35, 40, 52, 61] {
        let mut f = Fake::new().with_bytes(0x37, &[0x0c]);
        mac::rar_set(&mut f, &a, MacVersion(v));
        assert!(
            !f.writes().iter().any(|(r, _)| *r == eri::ERIAR),
            "ver {v} must not take the exgmac path"
        );
    }
}

#[test]
fn version_34_reads_no_eri_address_but_writes_one() {
    assert_eq!(mac::hw_mac_source(MacVersion(34)), HwMacSource::NoSource);
    let mut f = Fake::new().with_bytes(0x37, &[0x0c]);
    mac::rar_set(&mut f, &GOOD, MacVersion(34));
    assert!(f.writes().iter().any(|(r, _)| *r == eri::ERIAR));
}
