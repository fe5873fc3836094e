//! PHY register access: the legacy PHYAR path and the OCP GPHY path, each with its own poll
//! interval, and the settling delay that only the legacy path requires.

use vstd::prelude::*;
use crate::r8169::init::{added, Bus, BusOp};

verus! {

/// The legacy PHY access register.
pub const PHYAR: u32 = 0x60;
/// The OCP GPHY access register.
pub const GPHY_OCP: u32 = 0xb8;
/// Bit 31: the busy/ready flag of both access registers, and the write command.
pub const OCPAR_FLAG: u32 = 0x8000_0000;
/// Base of the standard PHY page in OCP space.
pub const OCP_STD_PHY_BASE: u32 = 0xa400;
/// Legacy path: 25 polls, 20 us apart.
pub const LEGACY_POLL_N: u32 = 25;
pub const LEGACY_POLL_US: u32 = 20;
/// Legacy path: 20 us after every transaction before the next command.
pub const LEGACY_POST_US: u32 = 20;
/// OCP path: 25 polls, 10 us apart.
pub const OCP_POLL_N: u32 = 25;
pub const OCP_POLL_US: u32 = 10;

/// Why a PHY access gave up.
#[derive(Clone, Copy, PartialEq, Eq, Debug)]
pub enum MdioError {
    /// The busy flag never settled within the poll budget.
    Timeout,
    /// The OCP register is out of range (above 16 bits) or odd; the bus was not touched.
    InvalidOcpReg(u32),
}

/// A 32-bit read of `reg` whose `flag` bits are nonzero exactly when `high`.
pub open spec fn is_flag_read(op: BusOp, reg: u32, flag: u32, high: bool) -> bool {
    match op {
        BusOp::R32 { reg: r, val } => r == reg && ((val & flag != 0) == high),
        _ => false,
    }
}

/// Polls that did not yet see the flag in the awaited sense `high`: each read of `reg` is
/// followed by a delay of `us`.
pub open spec fn pending_run(run: Seq<BusOp>, reg: u32, flag: u32, high: bool, us: u32) -> bool {
    &&& run.len() % 2 == 0
    &&& forall|i: int|
        0 <= i < run.len() ==> if i % 2 == 0 {
            is_flag_read(#[trigger] run[i], reg, flag, !high)
        } else {
            run[i] == BusOp::Delay { us }
        }
}

/// The traffic of a wait for `flag` of `reg` to reach the sense `high`, checking before each
/// delay, for at most `n` polls. When it `settled`, the last read saw the awaited sense after
/// fewer than `n` pending polls; otherwise all `n` polls were pending, each followed by a delay.
pub open spec fn wait_traffic(
    w: Seq<BusOp>,
    reg: u32,
    flag: u32,
    high: bool,
    n: u32,
    us: u32,
    settled: bool,
) -> bool {
    exists|run: Seq<BusOp>|
        #[trigger] pending_run(run, reg, flag, high, us) && if settled {
            &&& run.len() < 2 * n
            &&& w.len() == run.len() + 1
            &&& w == run.push(w[w.len() - 1])
            &&& is_flag_read(w[w.len() - 1], reg, flag, high)
        } else {
            run.len() == 2 * n && w == run
        }
}

proof fn lemma_pending_run_push(run: Seq<BusOp>, reg: u32, flag: u32, high: bool, us: u32, op: BusOp)
    requires
        pending_run(run, reg, flag, high, us),
        is_flag_read(op, reg, flag, !high),
    ensures
        pending_run(run.push(op).push(BusOp::Delay { us }), reg, flag, high, us),
{
    let next = run.push(op).push(BusOp::Delay { us });
    assert forall|i: int| 0 <= i < next.len() implies if i % 2 == 0 {
        is_flag_read(#[trigger] next[i], reg, flag, !high)
    } else {
        next[i] == BusOp::Delay { us }
    } by {
        if i < run.len() {
            assert(next[i] == run[i]);
        }
    }
}

/// Wait for `flag` of `reg` to reach `high`: check first, then sleep, for at most `n` polls.
pub(crate) fn loop_wait<B: Bus>(bus: &mut B, reg: u32, flag: u32, high: bool, n: u32, us: u32) -> (settled: bool)
    ensures
        old(bus).trace().len() <= final(bus).trace().len(),
        final(bus).trace().subrange(0, old(bus).trace().len() as int) == old(bus).trace(),
        wait_traffic(added(old(bus).trace(), final(bus).trace()), reg, flag, high, n, us, settled),
{
    let ghost t0 = bus.trace();
    let ghost mut run: Seq<BusOp> = Seq::empty();
    let mut i: u32 = 0;
    while i < n
        invariant
            0 <= i <= n,
            pending_run(run, reg, flag, high, us),
            run.len() == 2 * i,
            bus.trace() == t0 + run,
            t0 == old(bus).trace(),
        decreases n - i,
    {
        let v = bus.r32(reg);
        if (v & flag != 0) == high {
            proof {
                let w = added(t0, bus.trace());
                assert(w =~= run.push(BusOp::R32 { reg, val: v }));
                assert(pending_run(run, reg, flag, high, us));
            }
            return true;
        }
        bus.delay_us(us);
        proof {
            lemma_pending_run_push(run, reg, flag, high, us, BusOp::R32 { reg, val: v });
            run = run.push(BusOp::R32 { reg, val: v }).push(BusOp::Delay { us });
        }
        i = i + 1;
    }
    proof {
        assert(added(t0, bus.trace()) =~= run);
        assert(pending_run(run, reg, flag, high, us));
    }
    false
}

/// Whether an OCP register is invalid: `reg & 0xffff0001` nonzero (above 16 bits, or odd).
pub fn ocp_reg_is_invalid(reg: u32) -> (invalid: bool)
    ensures
        invalid == (reg & 0xffff_0001 != 0),
{
    reg & 0xffff_0001 != 0
}

/// The PHYAR word of a legacy write: flag, 5-bit register number at bit 16, the value.
pub open spec fn spec_phyar_write_word(reg: u32, value: u16) -> u32 {
    OCPAR_FLAG | ((reg & 0x1f) << 16u32) | (value as u32)
}

/// The PHYAR word of a legacy read: the register number alone, bit 31 clear.
pub open spec fn spec_phyar_read_word(reg: u32) -> u32 {
    (reg & 0x1f) << 16u32
}

/// The GPHY_OCP word of an OCP write: flag, the byte address shifted by fifteen, the data.
pub open spec fn spec_ocp_write_word(reg: u32, data: u16) -> u32 {
    OCPAR_FLAG | (reg << 15u32) | (data as u32)
}

/// The GPHY_OCP word of an OCP read: the byte address shifted by fifteen.
pub open spec fn spec_ocp_read_word(reg: u32) -> u32 {
    reg << 15u32
}

/// The word a legacy write puts in PHYAR.
pub fn phyar_write_word(reg: u32, value: u16) -> (word: u32)
    ensures
        word == spec_phyar_write_word(reg, value),
{
    OCPAR_FLAG | (reg & 0x1f) << 16 | value as u32
}

/// The word a legacy read puts in PHYAR.
pub fn phyar_read_word(reg: u32) -> (word: u32)
    ensures
        word == spec_phyar_read_word(reg),
{
    (reg & 0x1f) << 16
}

/// The word an OCP write puts in GPHY_OCP: the shift is fifteen, turning the even byte address
/// into the register index at bit 16.
pub fn ocp_write_word(reg: u32, data: u16) -> (word: u32)
    ensures
        word == spec_ocp_write_word(reg, data),
{
    OCPAR_FLAG | (reg << 15) | data as u32
}

/// The word an OCP read puts in GPHY_OCP.
pub fn ocp_read_word(reg: u32) -> (word: u32)
    ensures
        word == spec_ocp_read_word(reg),
{
    reg << 15
}

/// An MII register number as an OCP byte address: `ocp_base + reg * 2`, with `reg - 0x10` first
/// unless the page base is the standard one.
pub fn ocp_addr_for_mii(ocp_base: u32, reg: u32) -> (addr: u32)
    requires
        ocp_base != OCP_STD_PHY_BASE ==> reg >= 0x10,
        ocp_base + 2 * (if ocp_base != OCP_STD_PHY_BASE {
            reg - 0x10
        } else {
            reg as int
        }) <= u32::MAX,
    ensures
        addr == ocp_base + 2 * (if ocp_base != OCP_STD_PHY_BASE {
            reg - 0x10
        } else {
            reg as int
        }),
{
    let reg = if ocp_base != OCP_STD_PHY_BASE {
        reg - 0x10
    } else {
        reg
    };
    ocp_base + reg * 2
}

/// The traffic of a legacy write: the command word to PHYAR, a wait (25 polls, 20 us) for the
/// flag to clear, then the 20 us settling delay whether or not the wait succeeded.
pub open spec fn legacy_write_traffic(ext: Seq<BusOp>, reg: u32, value: u16, result: Result<(), MdioError>) -> bool {
    exists|w: Seq<BusOp>|
        #[trigger] wait_traffic(w, PHYAR, OCPAR_FLAG, false, LEGACY_POLL_N, LEGACY_POLL_US, result is Ok)
            && ext == seq![BusOp::W32 { reg: PHYAR, val: spec_phyar_write_word(reg, value) }] + w
            + seq![BusOp::Delay { us: LEGACY_POST_US }] && (result is Err ==> result == Err::<
            (),
            MdioError,
        >(MdioError::Timeout))
}

/// Legacy PHYAR write.
pub fn legacy_write<B: Bus>(bus: &mut B, reg: u32, value: u16) -> (result: Result<(), MdioError>)
    ensures
        old(bus).trace().len() <= final(bus).trace().len(),
        final(bus).trace().subrange(0, old(bus).trace().len() as int) == old(bus).trace(),
        legacy_write_traffic(added(old(bus).trace(), final(bus).trace()), reg, value, result),
{
    let ghost t0 = bus.trace();
    bus.w32(PHYAR, phyar_write_word(reg, value));
    let ghost t1 = bus.trace();
    let settled = loop_wait(bus, PHYAR, OCPAR_FLAG, false, LEGACY_POLL_N, LEGACY_POLL_US);
    let ghost t2 = bus.trace();
    bus.delay_us(LEGACY_POST_US);
    let result = if settled {
        Ok(())
    } else {
        Err(MdioError::Timeout)
    };
    proof {
        let w = added(t1, t2);
        assert(t2 =~= t1 + w);
        assert(added(t0, bus.trace()) =~= seq![
            BusOp::W32 { reg: PHYAR, val: spec_phyar_write_word(reg, value) },
        ] + w + seq![BusOp::Delay { us: LEGACY_POST_US }]);
        assert(wait_traffic(w, PHYAR, OCPAR_FLAG, false, LEGACY_POLL_N, LEGACY_POLL_US, result is Ok));
    }
    result
}

/// The traffic of a legacy read: the command word to PHYAR, a wait (25 polls, 20 us) for the
/// flag to set, then, if it set, one more read of PHYAR whose low 16 bits are the result, then
/// the 20 us settling delay in either case.
pub open spec fn legacy_read_traffic(ext: Seq<BusOp>, reg: u32, result: Result<u16, MdioError>) -> bool {
    exists|w: Seq<BusOp>|
        #[trigger] wait_traffic(w, PHYAR, OCPAR_FLAG, true, LEGACY_POLL_N, LEGACY_POLL_US, result is Ok)
            && match result {
            Ok(v) => exists|d: u32|
                #![trigger (d & 0xffff)]
                v == d & 0xffff && ext == seq![BusOp::W32 { reg: PHYAR, val: spec_phyar_read_word(reg) }]
                    + w + seq![BusOp::R32 { reg: PHYAR, val: d }, BusOp::Delay { us: LEGACY_POST_US }],
            Err(e) => e == MdioError::Timeout && ext == seq![
                BusOp::W32 { reg: PHYAR, val: spec_phyar_read_word(reg) },
            ] + w + seq![BusOp::Delay { us: LEGACY_POST_US }],
        }
}

/// Legacy PHYAR read.
pub fn legacy_read<B: Bus>(bus: &mut B, reg: u32) -> (result: Result<u16, MdioError>)
    ensures
        old(bus).trace().len() <= final(bus).trace().len(),
        final(bus).trace().subrange(0, old(bus).trace().len() as int) == old(bus).trace(),
        legacy_read_traffic(added(old(bus).trace(), final(bus).trace()), reg, result),
{
    let ghost t0 = bus.trace();
    bus.w32(PHYAR, phyar_read_word(reg));
    let ghost t1 = bus.trace();
    let ready = loop_wait(bus, PHYAR, OCPAR_FLAG, true, LEGACY_POLL_N, LEGACY_POLL_US);
    let ghost t2 = bus.trace();
    let ghost w = added(t1, t2);
    proof {
        assert(t2 =~= t1 + w);
        assert(wait_traffic(w, PHYAR, OCPAR_FLAG, true, LEGACY_POLL_N, LEGACY_POLL_US, ready));
    }
    if ready {
        let d = bus.r32(PHYAR);
        proof {
            lemma_low16(d);
        }
        let v = (d & 0xffff) as u16;
        bus.delay_us(LEGACY_POST_US);
        let result: Result<u16, MdioError> = Ok(v);
        proof {
            let ext = added(t0, bus.trace());
            assert(ext =~= seq![
                BusOp::W32 { reg: PHYAR, val: spec_phyar_read_word(reg) },
            ] + w + seq![BusOp::R32 { reg: PHYAR, val: d }, BusOp::Delay { us: LEGACY_POST_US }]);
            assert(v == d & 0xffff);
            assert(wait_traffic(w, PHYAR, OCPAR_FLAG, true, LEGACY_POLL_N, LEGACY_POLL_US, result is Ok));
        }
        result
    } else {
        bus.delay_us(LEGACY_POST_US);
        let result: Result<u16, MdioError> = Err(MdioError::Timeout);
        proof {
            assert(added(t0, bus.trace()) =~= seq![
                BusOp::W32 { reg: PHYAR, val: spec_phyar_read_word(reg) },
            ] + w + seq![BusOp::Delay { us: LEGACY_POST_US }]);
            assert(wait_traffic(w, PHYAR, OCPAR_FLAG, true, LEGACY_POLL_N, LEGACY_POLL_US, result is Ok));
        }
        result
    }
}

proof fn lemma_low16(d: u32)
    by (bit_vector)
    ensures
        d & 0xffffu32 <= 0xffffu32,
{
}

/// The traffic of an OCP write: nothing at all for an invalid register; otherwise the command
/// word to GPHY_OCP and a wait (25 polls, 10 us) for the flag to clear, with no settling delay.
pub open spec fn ocp_write_traffic(ext: Seq<BusOp>, reg: u32, data: u16, result: Result<(), MdioError>) -> bool {
    if reg & 0xffff_0001 != 0 {
        result == Err::<(), MdioError>(MdioError::InvalidOcpReg(reg)) && ext.len() == 0
    } else {
        exists|w: Seq<BusOp>|
            #[trigger] wait_traffic(w, GPHY_OCP, OCPAR_FLAG, false, OCP_POLL_N, OCP_POLL_US, result is Ok)
                && ext == seq![BusOp::W32 { reg: GPHY_OCP, val: spec_ocp_write_word(reg, data) }] + w
                && (result is Err ==> result == Err::<(), MdioError>(MdioError::Timeout))
    }
}

/// OCP GPHY write (8168g and later).
pub fn ocp_write<B: Bus>(bus: &mut B, reg: u32, data: u16) -> (result: Result<(), MdioError>)
    ensures
        old(bus).trace().len() <= final(bus).trace().len(),
        final(bus).trace().subrange(0, old(bus).trace().len() as int) == old(bus).trace(),
        ocp_write_traffic(added(old(bus).trace(), final(bus).trace()), reg, data, result),
{
    let ghost t0 = bus.trace();
    if ocp_reg_is_invalid(reg) {
        assert(added(t0, bus.trace()) =~= Seq::<BusOp>::empty());
        return Err(MdioError::InvalidOcpReg(reg));
    }
    bus.w32(GPHY_OCP, ocp_write_word(reg, data));
    let ghost t1 = bus.trace();
    let settled = loop_wait(bus, GPHY_OCP, OCPAR_FLAG, false, OCP_POLL_N, OCP_POLL_US);
    let result = if settled {
        Ok(())
    } else {
        Err(MdioError::Timeout)
    };
    proof {
        let w = added(t1, bus.trace());
        assert(bus.trace() =~= t1 + w);
        assert(added(t0, bus.trace()) =~= seq![
            BusOp::W32 { reg: GPHY_OCP, val: spec_ocp_write_word(reg, data) },
        ] + w);
        assert(wait_traffic(w, GPHY_OCP, OCPAR_FLAG, false, OCP_POLL_N, OCP_POLL_US, result is Ok));
    }
    result
}

/// The traffic of an OCP read: nothing at all for an invalid register; otherwise the command
/// word to GPHY_OCP, a wait (25 polls, 10 us) for the flag to set, and, if it set, one more read
/// of GPHY_OCP whose low 16 bits are the result.
pub open spec fn ocp_read_traffic(ext: Seq<BusOp>, reg: u32, result: Result<u16, MdioError>) -> bool {
    if reg & 0xffff_0001 != 0 {
        result == Err::<u16, MdioError>(MdioError::InvalidOcpReg(reg)) && ext.len() == 0
    } else {
        exists|w: Seq<BusOp>|
            #[trigger] wait_traffic(w, GPHY_OCP, OCPAR_FLAG, true, OCP_POLL_N, OCP_POLL_US, result is Ok)
                && match result {
                Ok(v) => exists|d: u32|
                    #![trigger (d & 0xffff)]
                    v == d & 0xffff && ext == seq![BusOp::W32 { reg: GPHY_OCP, val: spec_ocp_read_word(reg) }]
                        + w + seq![BusOp::R32 { reg: GPHY_OCP, val: d }],
                Err(e) => e == MdioError::Timeout && ext == seq![
                    BusOp::W32 { reg: GPHY_OCP, val: spec_ocp_read_word(reg) },
                ] + w,
            }
    }
}

/// OCP GPHY read (8168g and later).
pub fn ocp_read<B: Bus>(bus: &mut B, reg: u32) -> (result: Result<u16, MdioError>)
    ensures
        old(bus).trace().len() <= final(bus).trace().len(),
        final(bus).trace().subrange(0, old(bus).trace().len() as int) == old(bus).trace(),
        ocp_read_traffic(added(old(bus).trace(), final(bus).trace()), reg, result),
{
    let ghost t0 = bus.trace();
    if ocp_reg_is_invalid(reg) {
        assert(added(t0, bus.trace()) =~= Seq::<BusOp>::empty());
        return Err(MdioError::InvalidOcpReg(reg));
    }
    bus.w32(GPHY_OCP, ocp_read_word(reg));
    let ghost t1 = bus.trace();
    let ready = loop_wait(bus, GPHY_OCP, OCPAR_FLAG, true, OCP_POLL_N, OCP_POLL_US);
    let ghost w = added(t1, bus.trace());
    assert(bus.trace() =~= t1 + w);
    if ready {
        let d = bus.r32(GPHY_OCP);
        proof {
            lemma_low16(d);
        }
        let v = (d & 0xffff) as u16;
        let result: Result<u16, MdioError> = Ok(v);
        proof {
            assert(added(t0, bus.trace()) =~= seq![
                BusOp::W32 { reg: GPHY_OCP, val: spec_ocp_read_word(reg) },
            ] + w + seq![BusOp::R32 { reg: GPHY_OCP, val: d }]);
            assert(v == d & 0xffff);
            assert(wait_traffic(w, GPHY_OCP, OCPAR_FLAG, true, OCP_POLL_N, OCP_POLL_US, result is Ok));
        }
        result
    } else {
        let result: Result<u16, MdioError> = Err(MdioError::Timeout);
        proof {
            assert(added(t0, bus.trace()) =~= seq![
                BusOp::W32 { reg: GPHY_OCP, val: spec_ocp_read_word(reg) },
            ] + w);
            assert(wait_traffic(w, GPHY_OCP, OCPAR_FLAG, true, OCP_POLL_N, OCP_POLL_US, result is Ok));
        }
        result
    }
}

} // verus!
