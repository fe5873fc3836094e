use coral_drivers::r8169::init::{Bus, BusTrace};
use coral_drivers::r8169::irq::{self, events, Verdict};
use coral_drivers::r8169::regs;

#[derive(Debug, PartialEq, Eq, Clone, Copy)]
enum Op {
    R16(u32, u16),
    W16(u32, u16),
}

struct Fake {
    log: Vec<Op>,
    status: u16,
}

impl Fake {
    fn new(status: u16) -> Self {
        Fake { log: Vec::new(), status }
    }
}

impl Bus for Fake {
    fn trace(&self) -> BusTrace {
        unreachable!("the access trace is a proof model and is never evaluated")
    }
    fn r8(&mut self, _reg: u32) -> u8 { 0 }
    fn w8(&mut self, _reg: u32, _val: u8) {}
    fn r16(&mut self, reg: u32) -> u16 {
        let v = if reg == regs::INTR_STATUS { self.status } else { 0 };
        self.log.push(Op::R16(reg, v));
        v
    }
    fn w16(&mut self, reg: u32, val: u16) {
        self.log.push(Op::W16(reg, val));
    }
    fn r32(&mut self, reg: u32) -> u32 {
        panic!("unexpected 32-bit read of {reg:#x}")
    }
    fn w32(&mut self, reg: u32, val: u32) {
        panic!("unexpected 32-bit write {val:#x} -> {reg:#x}")
    }
    fn delay_us(&mut self, _us: u32) {}
}

#[test]
fn the_interrupt_bits_match_linux() {
    assert_eq!(events::SYS_ERR, 0x8000);
    assert_eq!(events::PCS_TIMEOUT, 0x4000);
    assert_eq!(events::SW_INT, 0x0100);
    assert_eq!(events::TX_DESC_UNAVAIL, 0x0080);
    assert_eq!(events::RX_FIFO_OVER, 0x0040);
    assert_eq!(events::LINK_CHG, 0x0020);
    assert_eq!(events::RX_OVERFLOW, 0x0010);
    assert_eq!(events::TX_ERR, 0x0008);
    assert_eq!(events::TX_OK, 0x0004);
    assert_eq!(events::RX_ERR, 0x0002);
    assert_eq!(events::RX_OK, 0x0001);
    let all = [
        events::SYS_ERR, events::PCS_TIMEOUT, events::SW_INT, events::TX_DESC_UNAVAIL,
        events::RX_FIFO_OVER, events::LINK_CHG, events::RX_OVERFLOW, events::TX_ERR,
        events::TX_OK, events::RX_ERR, events::RX_OK,
    ];
    for (i, a) in all.iter().enumerate() {
        for b in &all[i + 1..] {
            assert_eq!(a & b, 0, "two interrupt bits overlap");
        }
    }
}

#[test]
fn an_all_ones_status_means_the_device_is_gone_not_maximally_busy() {
    assert_eq!(irq::classify(0xffff, 0xffff), Verdict::DeviceGone);
    assert_eq!(irq::classify(0xffff, events::RX_OK), Verdict::DeviceGone);
    assert_ne!(irq::classify(0xffff, events::RX_OK), Verdict::Handle(events::RX_OK));
    assert_eq!(irq::classify(0xffff, 0), Verdict::DeviceGone, "gone, even with an empty mask");
}

#[test]
fn an_unmasked_event_is_not_ours() {
    assert_eq!(irq::classify(events::SW_INT, events::RX_OK | events::TX_OK), Verdict::NotOurs);
    assert_eq!(irq::classify(0, events::RX_OK), Verdict::NotOurs);
}

#[test]
fn a_masked_event_is_ours_and_is_reported_masked() {
    let mask = events::RX_OK | events::TX_OK;
    assert_eq!(irq::classify(events::RX_OK | events::SW_INT, mask), Verdict::Handle(events::RX_OK));
}

#[test]
fn a_real_interrupt_reads_then_masks_then_acks_in_that_order() {
    let status = events::RX_OK | events::TX_OK;
    let mut f = Fake::new(status);
    assert_eq!(irq::handle_interrupt(&mut f, 0xffff), Verdict::Handle(status));
    assert_eq!(
        f.log,
        vec![
            Op::R16(regs::INTR_STATUS, status),
            Op::W16(regs::INTR_MASK, 0),
            Op::W16(regs::INTR_STATUS, status),
        ],
        "read status, mask the line, THEN ack — acking first reopens the window the mask closes"
    );
}

#[test]
fn the_ack_carries_exactly_the_status_that_was_read() {
    let status = events::RX_OK | events::LINK_CHG | events::SW_INT;
    let mut f = Fake::new(status);
    irq::handle_interrupt(&mut f, events::RX_OK);
    let acked: Vec<u16> = f.log.iter().filter_map(|o| match o {
        Op::W16(r, v) if *r == regs::INTR_STATUS => Some(*v),
        _ => None,
    }).collect();
    assert_eq!(acked, vec![status], "ack the FULL status read, not just the masked subset");
}

#[test]
fn an_interrupt_that_is_not_ours_writes_no_registers() {
    let mut f = Fake::new(events::SW_INT);
    assert_eq!(irq::handle_interrupt(&mut f, events::RX_OK), Verdict::NotOurs);
    assert!(
        !f.log.iter().any(|o| matches!(o, Op::W16(_, _))),
        "a foreign interrupt must not be masked or acked"
    );
}

#[test]
fn a_vanished_device_is_not_written_to() {
    let mut f = Fake::new(0xffff);
    assert_eq!(irq::handle_interrupt(&mut f, 0xffff), Verdict::DeviceGone);
    assert!(!f.log.iter().any(|o| matches!(o, Op::W16(_, _))));
}

#[test]
fn enable_and_disable_write_only_the_mask_register() {
    let mut f = Fake::new(0);
    irq::disable(&mut f);
    irq::enable(&mut f, events::RX_OK | events::TX_OK);
    assert_eq!(
        f.log,
        vec![
            Op::W16(regs::INTR_MASK, 0),
            Op::W16(regs::INTR_MASK, events::RX_OK | events::TX_OK),
        ]
    );
}
