//! Interrupt handling: an all-ones status means the device is gone, and a real interrupt is
//! masked before it is acknowledged.

pub mod events;

use vstd::prelude::*;
use crate::r8169::init::{added, Bus, BusOp};
use crate::r8169::regs;

verus! {

/// What an interrupt turned out to be.
#[derive(Clone, Copy, PartialEq, Eq, Debug)]
pub enum Verdict {
    /// Every status bit set: a removed or powered-down function, not a burst of events.
    DeviceGone,
    /// Nothing we asked for; on a shared line another device raised it.
    NotOurs,
    /// Ours, with the masked event bits.
    Handle(u16),
}

/// Classification of a status word against the driver's mask: all-ones is a vanished device
/// (whatever the mask), no masked bit is not ours, otherwise the masked bits are handled.
pub open spec fn spec_classify(status: u16, irq_mask: u16) -> Verdict {
    if status == 0xffff {
        Verdict::DeviceGone
    } else if status & irq_mask == 0 {
        Verdict::NotOurs
    } else {
        Verdict::Handle(status & irq_mask)
    }
}

/// Classify a status word against the driver's interrupt mask.
pub fn classify(status: u16, irq_mask: u16) -> (v: Verdict)
    ensures
        v == spec_classify(status, irq_mask),
{
    if status == 0xffff {
        return Verdict::DeviceGone;
    }
    if status & irq_mask == 0 {
        return Verdict::NotOurs;
    }
    Verdict::Handle(status & irq_mask)
}

/// Mask all interrupts: write zero to IntrMask.
pub fn disable<B: Bus>(bus: &mut B)
    ensures
        final(bus).trace() == old(bus).trace().push(BusOp::W16 { reg: regs::INTR_MASK, val: 0 }),
{
    bus.w16(regs::INTR_MASK, 0);
}

/// Restore the driver's mask: write it to IntrMask.
pub fn enable<B: Bus>(bus: &mut B, irq_mask: u16)
    ensures
        final(bus).trace() == old(bus).trace().push(
            BusOp::W16 { reg: regs::INTR_MASK, val: irq_mask },
        ),
{
    bus.w16(regs::INTR_MASK, irq_mask);
}

/// Acknowledge events: write the bits to IntrStatus (write-one-to-clear).
pub fn ack<B: Bus>(bus: &mut B, bits: u16)
    ensures
        final(bus).trace() == old(bus).trace().push(
            BusOp::W16 { reg: regs::INTR_STATUS, val: bits },
        ),
{
    bus.w16(regs::INTR_STATUS, bits);
}

/// Read the pending event word: a 16-bit read of IntrStatus.
pub fn read_events<B: Bus>(bus: &mut B) -> (status: u16)
    ensures
        final(bus).trace() == old(bus).trace().push(
            BusOp::R16 { reg: regs::INTR_STATUS, val: status },
        ),
{
    bus.r16(regs::INTR_STATUS)
}

/// The traffic of one interrupt: one read of IntrStatus, classified; a handled interrupt then
/// masks the line and only afterwards acknowledges exactly the status read. A foreign interrupt
/// or a vanished device writes nothing.
pub open spec fn interrupt_traffic(ext: Seq<BusOp>, irq_mask: u16, v: Verdict) -> bool {
    exists|status: u16|
        #![trigger spec_classify(status, irq_mask)]
        v == spec_classify(status, irq_mask) && if v is Handle {
            ext == seq![
                BusOp::R16 { reg: regs::INTR_STATUS, val: status },
                BusOp::W16 { reg: regs::INTR_MASK, val: 0 },
                BusOp::W16 { reg: regs::INTR_STATUS, val: status },
            ]
        } else {
            ext == seq![BusOp::R16 { reg: regs::INTR_STATUS, val: status }]
        }
}

/// One interrupt: read status, classify, and on a real interrupt mask the line, then ack last.
pub fn handle_interrupt<B: Bus>(bus: &mut B, irq_mask: u16) -> (v: Verdict)
    ensures
        old(bus).trace().len() <= final(bus).trace().len(),
        final(bus).trace().subrange(0, old(bus).trace().len() as int) == old(bus).trace(),
        interrupt_traffic(added(old(bus).trace(), final(bus).trace()), irq_mask, v),
{
    let ghost t0 = bus.trace();
    let status = read_events(bus);
    let verdict = classify(status, irq_mask);
    match verdict {
        Verdict::DeviceGone | Verdict::NotOurs => {
            assert(added(t0, bus.trace()) =~= seq![
                BusOp::R16 { reg: regs::INTR_STATUS, val: status },
            ]);
            verdict
        },
        Verdict::Handle(_) => {
            disable(bus);
            ack(bus, status);
            assert(added(t0, bus.trace()) =~= seq![
                BusOp::R16 { reg: regs::INTR_STATUS, val: status },
                BusOp::W16 { reg: regs::INTR_MASK, val: 0 },
                BusOp::W16 { reg: regs::INTR_STATUS, val: status },
            ]);
            verdict
        },
    }
}

} // verus!
