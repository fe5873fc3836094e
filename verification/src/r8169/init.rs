//! Register access, reset and config-write unlocking.
//!
//! Register access goes through [`Bus`], implemented by the caller. Its contract is that every
//! access is appended to [`Bus::trace`], so the functions here state the exact register traffic
//! they produce, in order.

use vstd::prelude::*;
use crate::r8169::regs::{self, cfg9346, chip_cmd};

verus! {

/// One register access or wait, as recorded by a [`Bus`].
#[allow(inconsistent_fields)]
#[derive(Debug, Clone, Copy, PartialEq, Eq)]
pub enum BusOp {
    R8 { reg: u32, val: u8 },
    W8 { reg: u32, val: u8 },
    R16 { reg: u32, val: u16 },
    W16 { reg: u32, val: u16 },
    R32 { reg: u32, val: u32 },
    W32 { reg: u32, val: u32 },
    Delay { us: u32 },
}

/// Register access and the one wait primitive the sequences need, supplied by the caller.
///
/// The accesses made through a bus, oldest first.
pub type BusTrace = Seq<BusOp>;

/// Each access is recorded, in order, in `trace`: a read records the value it returned.
/// `trace` is a model for proofs only and is never called when the program runs.
pub trait Bus {
    /// Every access made through this bus so far, oldest first.
    spec fn trace(&self) -> BusTrace;

    fn r8(&mut self, reg: u32) -> (val: u8)
        ensures
            final(self).trace() == old(self).trace().push(BusOp::R8 { reg, val }),
    ;

    fn w8(&mut self, reg: u32, val: u8)
        ensures
            final(self).trace() == old(self).trace().push(BusOp::W8 { reg, val }),
    ;

    /// 16-bit access: IntrMask and IntrStatus are 16-bit registers.
    fn r16(&mut self, reg: u32) -> (val: u16)
        ensures
            final(self).trace() == old(self).trace().push(BusOp::R16 { reg, val }),
    ;

    fn w16(&mut self, reg: u32, val: u16)
        ensures
            final(self).trace() == old(self).trace().push(BusOp::W16 { reg, val }),
    ;

    /// 32-bit access: PHYAR, GPHY_OCP, ERIAR and ERIDR carry a flag in bit 31 beside the data.
    fn r32(&mut self, reg: u32) -> (val: u32)
        ensures
            final(self).trace() == old(self).trace().push(BusOp::R32 { reg, val }),
    ;

    fn w32(&mut self, reg: u32, val: u32)
        ensures
            final(self).trace() == old(self).trace().push(BusOp::W32 { reg, val }),
    ;

    /// Wait between status polls.
    fn delay_us(&mut self, us: u32)
        ensures
            final(self).trace() == old(self).trace().push(BusOp::Delay { us }),
    ;
}

/// The accesses made since `before`, given that `before` is a prefix of `after`.
pub open spec fn added(before: Seq<BusOp>, after: Seq<BusOp>) -> Seq<BusOp> {
    after.subrange(before.len() as int, after.len() as int)
}

/// `after` is `before` followed by `ext`.
pub open spec fn extends_with(before: Seq<BusOp>, after: Seq<BusOp>, ext: Seq<BusOp>) -> bool {
    after == before + ext
}

/// Why a reset gave up.
#[derive(Clone, Copy, PartialEq, Eq, Debug)]
pub enum ResetError {
    /// `CmdReset` never went low within the poll budget.
    Timeout,
}

/// A byte read of ChipCmd whose reset bit is set (`set`) or clear (`!set`).
pub open spec fn is_chipcmd_poll(op: BusOp, set: bool) -> bool {
    match op {
        BusOp::R8 { reg, val } => reg == regs::CHIP_CMD && ((val & chip_cmd::RESET != 0) == set),
        _ => false,
    }
}

/// Polls that still saw the reset bit set: each read of ChipCmd is followed by the poll delay.
pub open spec fn reset_busy_run(run: Seq<BusOp>) -> bool {
    &&& run.len() % 2 == 0
    &&& forall|i: int|
        0 <= i < run.len() ==> if i % 2 == 0 {
            is_chipcmd_poll(#[trigger] run[i], true)
        } else {
            run[i] == BusOp::Delay { us: regs::RESET_POLL_INTERVAL_US }
        }
}

/// The traffic of a reset: write `CmdReset` to ChipCmd, then poll ChipCmd, checking before each
/// delay. `Ok(n)`: the n-th poll (1-based, at most the budget) saw the bit clear and ended the
/// sequence. `Err(Timeout)`: every poll of the budget saw it set, each followed by a delay.
pub open spec fn reset_traffic(ext: Seq<BusOp>, result: Result<u32, ResetError>) -> bool {
    exists|run: Seq<BusOp>|
        #[trigger] reset_busy_run(run) && match result {
            Ok(polls) => {
                &&& 1 <= polls <= regs::RESET_POLL_MAX
                &&& run.len() == 2 * (polls - 1)
                &&& ext.len() == run.len() + 2
                &&& ext == seq![BusOp::W8 { reg: regs::CHIP_CMD, val: chip_cmd::RESET }] + run
                    + seq![ext[ext.len() - 1]]
                &&& is_chipcmd_poll(ext[ext.len() - 1], false)
            },
            Err(ResetError::Timeout) => {
                &&& run.len() == 2 * regs::RESET_POLL_MAX
                &&& ext == seq![BusOp::W8 { reg: regs::CHIP_CMD, val: chip_cmd::RESET }] + run
            },
        }
}

proof fn lemma_reset_run_push(run: Seq<BusOp>, op: BusOp)
    requires
        reset_busy_run(run),
        is_chipcmd_poll(op, true),
    ensures
        reset_busy_run(run.push(op).push(BusOp::Delay { us: regs::RESET_POLL_INTERVAL_US })),
{
    let next = run.push(op).push(BusOp::Delay { us: regs::RESET_POLL_INTERVAL_US });
    assert forall|i: int| 0 <= i < next.len() implies if i % 2 == 0 {
        is_chipcmd_poll(#[trigger] next[i], true)
    } else {
        next[i] == BusOp::Delay { us: regs::RESET_POLL_INTERVAL_US }
    } by {
        if i < run.len() {
            assert(next[i] == run[i]);
        }
    }
}

/// Hardware reset: write `CmdReset`, then poll ChipCmd until the chip clears it, for at most
/// [`regs::RESET_POLL_MAX`] polls with [`regs::RESET_POLL_INTERVAL_US`] between them.
/// Returns the number of polls it took.
pub fn hw_reset<B: Bus>(bus: &mut B) -> (result: Result<u32, ResetError>)
    ensures
        old(bus).trace().len() <= final(bus).trace().len(),
        final(bus).trace().subrange(0, old(bus).trace().len() as int) == old(bus).trace(),
        reset_traffic(added(old(bus).trace(), final(bus).trace()), result),
{
    let ghost t0 = bus.trace();
    bus.w8(regs::CHIP_CMD, chip_cmd::RESET);
    let ghost head = seq![BusOp::W8 { reg: regs::CHIP_CMD, val: chip_cmd::RESET }];
    let ghost mut run: Seq<BusOp> = Seq::empty();
    let mut polls: u32 = 1;
    while polls <= regs::RESET_POLL_MAX
        invariant
            1 <= polls <= regs::RESET_POLL_MAX + 1,
            reset_busy_run(run),
            run.len() == 2 * (polls - 1),
            bus.trace() == t0 + head + run,
            t0 == old(bus).trace(),
            head == seq![BusOp::W8 { reg: regs::CHIP_CMD, val: chip_cmd::RESET }],
        decreases regs::RESET_POLL_MAX + 1 - polls,
    {
        let v = bus.r8(regs::CHIP_CMD);
        if v & chip_cmd::RESET == 0 {
            proof {
                let ext = added(t0, bus.trace());
                let last = BusOp::R8 { reg: regs::CHIP_CMD, val: v };
                assert(ext =~= head + run + seq![last]);
                assert(ext[ext.len() - 1] == last);
                assert(reset_busy_run(run));
            }
            return Ok(polls);
        }
        bus.delay_us(regs::RESET_POLL_INTERVAL_US);
        proof {
            lemma_reset_run_push(run, BusOp::R8 { reg: regs::CHIP_CMD, val: v });
            run = run.push(BusOp::R8 { reg: regs::CHIP_CMD, val: v }).push(
                BusOp::Delay { us: regs::RESET_POLL_INTERVAL_US },
            );
        }
        polls = polls + 1;
    }
    proof {
        let ext = added(t0, bus.trace());
        assert(ext =~= head + run);
        assert(reset_busy_run(run));
    }
    Err(ResetError::Timeout)
}

/// Run `f` with the Config0..5 write lock open, closing it again afterwards.
///
/// The traffic is the unlock write, then whatever `f` does, then the lock write. `f` runs once,
/// on the bus just after the unlock write, and its result is returned; the lock write follows
/// what `f` left on the bus. `f` must only add to the bus's record (as any use of the bus does).
pub fn with_config_unlocked<B: Bus, R>(bus: &mut B, f: impl FnOnce(&mut B) -> R) -> (r: R)
    requires
        forall|b: &mut B| f.requires((b,)),
        forall|b: &mut B, r: R|
            f.ensures((b,), r) ==> b.trace().len() <= final(b).trace().len()
                && final(b).trace().subrange(0, b.trace().len() as int) == b.trace(),
    ensures
        exists|b: &mut B|
            b.trace() == old(bus).trace().push(
                BusOp::W8 { reg: regs::CFG_9346, val: cfg9346::UNLOCK },
            ) && f.ensures((b,), r) && final(bus).trace() == final(b).trace().push(
                BusOp::W8 { reg: regs::CFG_9346, val: cfg9346::LOCK },
            ),
        exists|body: Seq<BusOp>|
            final(bus).trace() == old(bus).trace() + seq![
                BusOp::W8 { reg: regs::CFG_9346, val: cfg9346::UNLOCK },
            ] + body + seq![BusOp::W8 { reg: regs::CFG_9346, val: cfg9346::LOCK }],
{
    bus.w8(regs::CFG_9346, cfg9346::UNLOCK);
    let ghost t1 = bus.trace();
    let r = f(bus);
    let ghost t2 = bus.trace();
    bus.w8(regs::CFG_9346, cfg9346::LOCK);
    proof {
        let body = t2.subrange(t1.len() as int, t2.len() as int);
        assert(t2 =~= t1 + body);
        assert(bus.trace() =~= old(bus).trace() + seq![
            BusOp::W8 { reg: regs::CFG_9346, val: cfg9346::UNLOCK },
        ] + body + seq![BusOp::W8 { reg: regs::CFG_9346, val: cfg9346::LOCK }]);
    }
    r
}

} // verus!
