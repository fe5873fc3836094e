//! ERI, the Extended Register Interface: a data register, an address/command register whose
//! bit 31 is both the write command and the busy flag, and the polls that drive them.

use vstd::prelude::*;
use crate::r8169::init::{added, Bus, BusOp};
use crate::r8169::mdio::{loop_wait, wait_traffic};

verus! {

/// Data register and address/command register.
pub const ERIDR: u32 = 0x70;
pub const ERIAR: u32 = 0x74;
/// The busy/ready bit read back from ERIAR.
pub const ERIAR_FLAG: u32 = 0x8000_0000;
/// Bit 31 makes the command a write; a read command contributes no bits at all.
pub const ERIAR_WRITE_CMD: u32 = 0x8000_0000;
pub const ERIAR_READ_CMD: u32 = 0x0000_0000;
/// Addresses must be multiples of four.
pub const ERIAR_ADDR_BYTE_ALIGN: u32 = 4;
/// Access type field, at bit 16.
pub const ERIAR_TYPE_SHIFT: u32 = 16;
pub const ERIAR_EXGMAC: u32 = 0x0000_0000;
pub const ERIAR_MSIX: u32 = 0x0001_0000;
/// Two names, one encoding.
pub const ERIAR_ASF: u32 = 0x0002_0000;
pub const ERIAR_OOB: u32 = 0x0002_0000;
/// Byte-enable masks, at bit 12.
pub const ERIAR_MASK_SHIFT: u32 = 12;
pub const ERIAR_MASK_0001: u32 = 0x0000_1000;
pub const ERIAR_MASK_0011: u32 = 0x0000_3000;
pub const ERIAR_MASK_0100: u32 = 0x0000_4000;
pub const ERIAR_MASK_0101: u32 = 0x0000_5000;
pub const ERIAR_MASK_1111: u32 = 0x0000_f000;
/// Both directions poll 100 times, 100 us apart.
pub const ERI_POLL_N: u32 = 100;
pub const ERI_POLL_US: u32 = 100;
/// The one MAC version whose OOB commands are adjusted.
pub const ADJUST_OCP_MAC_VER: u8 = 52;
/// What the adjustment ORs in: `0xf70 << 18`.
pub const ADJUST_OCP_OR: u32 = 0x3dc0_0000;
/// What a timed-out read returns in the reference driver: all ones.
pub const LINUX_READ_TIMEOUT_SENTINEL: u32 = 0xffff_ffff;

/// Why an ERI access did not happen, or did not complete.
#[derive(Clone, Copy, PartialEq, Eq, Debug)]
pub enum EriError {
    /// The address is not a multiple of four.
    UnalignedAddr(u32),
    /// A write with no byte enables.
    EmptyMask,
    /// The busy flag never settled within [`ERI_POLL_N`] polls.
    Timeout,
}

/// The command adjustment: OOB-type commands on MAC version 52 gain [`ADJUST_OCP_OR`].
pub open spec fn spec_adjust_ocp_cmd(cmd: u32, typ: u32, mac_version: u8) -> u32 {
    if typ == ERIAR_OOB && mac_version == ADJUST_OCP_MAC_VER {
        cmd | ADJUST_OCP_OR
    } else {
        cmd
    }
}

/// A write command: write bit, type, byte enables, address.
pub open spec fn spec_write_cmd_word(addr: u32, mask: u32, typ: u32) -> u32 {
    ERIAR_WRITE_CMD | typ | mask | addr
}

/// A read command: type, all four byte enables, address.
pub open spec fn spec_read_cmd_word(addr: u32, typ: u32) -> u32 {
    ERIAR_READ_CMD | typ | ERIAR_MASK_1111 | addr
}

/// Adjust a finished command word for the one part that needs it.
pub fn adjust_ocp_cmd(cmd: u32, typ: u32, mac_version: u8) -> (adjusted: u32)
    ensures
        adjusted == spec_adjust_ocp_cmd(cmd, typ, mac_version),
{
    if typ == ERIAR_OOB && mac_version == ADJUST_OCP_MAC_VER {
        cmd | ADJUST_OCP_OR
    } else {
        cmd
    }
}

/// The word a write puts in ERIAR, before adjustment.
pub fn write_cmd_word(addr: u32, mask: u32, typ: u32) -> (word: u32)
    ensures
        word == spec_write_cmd_word(addr, mask, typ),
{
    ERIAR_WRITE_CMD | typ | mask | addr
}

/// The word a read puts in ERIAR, before adjustment: a read always enables all four bytes.
pub fn read_cmd_word(addr: u32, typ: u32) -> (word: u32)
    ensures
        word == spec_read_cmd_word(addr, typ),
{
    ERIAR_READ_CMD | typ | ERIAR_MASK_1111 | addr
}

/// The traffic of an ERI write. An unaligned address or an empty mask is refused, in that
/// order, without touching the bus. Otherwise ERIDR is loaded first, then the (adjusted)
/// command goes to ERIAR, then ERIAR is polled (100 times, 100 us apart) for bit 31 to clear.
pub open spec fn eri_write_traffic(
    ext: Seq<BusOp>,
    addr: u32,
    mask: u32,
    val: u32,
    typ: u32,
    mac_version: u8,
    result: Result<(), EriError>,
) -> bool {
    if addr & (ERIAR_ADDR_BYTE_ALIGN - 1) as u32 != 0 {
        result == Err::<(), EriError>(EriError::UnalignedAddr(addr)) && ext.len() == 0
    } else if mask == 0 {
        result == Err::<(), EriError>(EriError::EmptyMask) && ext.len() == 0
    } else {
        exists|w: Seq<BusOp>|
            #[trigger] wait_traffic(w, ERIAR, ERIAR_FLAG, false, ERI_POLL_N, ERI_POLL_US, result is Ok)
                && ext == seq![
                BusOp::W32 { reg: ERIDR, val },
                BusOp::W32 {
                    reg: ERIAR,
                    val: spec_adjust_ocp_cmd(spec_write_cmd_word(addr, mask, typ), typ, mac_version),
                },
            ] + w && (result is Err ==> result == Err::<(), EriError>(EriError::Timeout))
    }
}

/// ERI write.
pub fn write<B: Bus>(bus: &mut B, addr: u32, mask: u32, val: u32, typ: u32, mac_version: u8) -> (result: Result<(), EriError>)
    ensures
        old(bus).trace().len() <= final(bus).trace().len(),
        final(bus).trace().subrange(0, old(bus).trace().len() as int) == old(bus).trace(),
        eri_write_traffic(added(old(bus).trace(), final(bus).trace()), addr, mask, val, typ, mac_version, result),
{
    let ghost t0 = bus.trace();
    if addr & (ERIAR_ADDR_BYTE_ALIGN - 1) != 0 {
        assert(added(t0, bus.trace()) =~= Seq::<BusOp>::empty());
        return Err(EriError::UnalignedAddr(addr));
    }
    if mask == 0 {
        assert(added(t0, bus.trace()) =~= Seq::<BusOp>::empty());
        return Err(EriError::EmptyMask);
    }
    let cmd = adjust_ocp_cmd(write_cmd_word(addr, mask, typ), typ, mac_version);
    bus.w32(ERIDR, val);
    bus.w32(ERIAR, cmd);
    let ghost t1 = bus.trace();
    let settled = loop_wait(bus, ERIAR, ERIAR_FLAG, false, ERI_POLL_N, ERI_POLL_US);
    let result = if settled {
        Ok(())
    } else {
        Err(EriError::Timeout)
    };
    proof {
        let w = added(t1, bus.trace());
        assert(bus.trace() =~= t1 + w);
        assert(added(t0, bus.trace()) =~= seq![
            BusOp::W32 { reg: ERIDR, val },
            BusOp::W32 { reg: ERIAR, val: cmd },
        ] + w);
        assert(wait_traffic(w, ERIAR, ERIAR_FLAG, false, ERI_POLL_N, ERI_POLL_US, result is Ok));
    }
    result
}

/// The traffic of an ERI read: the (adjusted) command to ERIAR, a poll of ERIAR (100 times,
/// 100 us apart) for bit 31 to set, and, once set, a read of ERIDR that is the result.
pub open spec fn eri_read_traffic(
    ext: Seq<BusOp>,
    addr: u32,
    typ: u32,
    mac_version: u8,
    result: Result<u32, EriError>,
) -> bool {
    let cmd = spec_adjust_ocp_cmd(spec_read_cmd_word(addr, typ), typ, mac_version);
    exists|w: Seq<BusOp>|
        #[trigger] wait_traffic(w, ERIAR, ERIAR_FLAG, true, ERI_POLL_N, ERI_POLL_US, result is Ok)
            && match result {
            Ok(v) => ext == seq![BusOp::W32 { reg: ERIAR, val: cmd }] + w + seq![
                BusOp::R32 { reg: ERIDR, val: v },
            ],
            Err(e) => e == EriError::Timeout && ext == seq![BusOp::W32 { reg: ERIAR, val: cmd }]
                + w,
        }
}

/// ERI read. Alignment is not checked on reads.
pub fn read<B: Bus>(bus: &mut B, addr: u32, typ: u32, mac_version: u8) -> (result: Result<u32, EriError>)
    ensures
        old(bus).trace().len() <= final(bus).trace().len(),
        final(bus).trace().subrange(0, old(bus).trace().len() as int) == old(bus).trace(),
        eri_read_traffic(added(old(bus).trace(), final(bus).trace()), addr, typ, mac_version, result),
{
    let ghost t0 = bus.trace();
    let cmd = adjust_ocp_cmd(read_cmd_word(addr, typ), typ, mac_version);
    bus.w32(ERIAR, cmd);
    let ghost t1 = bus.trace();
    let ready = loop_wait(bus, ERIAR, ERIAR_FLAG, true, ERI_POLL_N, ERI_POLL_US);
    let ghost w = added(t1, bus.trace());
    assert(bus.trace() =~= t1 + w);
    if ready {
        let v = bus.r32(ERIDR);
        let result: Result<u32, EriError> = Ok(v);
        proof {
            assert(added(t0, bus.trace()) =~= seq![BusOp::W32 { reg: ERIAR, val: cmd }] + w + seq![
                BusOp::R32 { reg: ERIDR, val: v },
            ]);
            assert(wait_traffic(w, ERIAR, ERIAR_FLAG, true, ERI_POLL_N, ERI_POLL_US, result is Ok));
        }
        result
    } else {
        let result: Result<u32, EriError> = Err(EriError::Timeout);
        proof {
            assert(added(t0, bus.trace()) =~= seq![BusOp::W32 { reg: ERIAR, val: cmd }] + w);
            assert(wait_traffic(w, ERIAR, ERIAR_FLAG, true, ERI_POLL_N, ERI_POLL_US, result is Ok));
        }
        result
    }
}

/// ERI read of the EXGMAC type.
pub fn read_exgmac<B: Bus>(bus: &mut B, addr: u32, mac_version: u8) -> (result: Result<u32, EriError>)
    ensures
        old(bus).trace().len() <= final(bus).trace().len(),
        final(bus).trace().subrange(0, old(bus).trace().len() as int) == old(bus).trace(),
        eri_read_traffic(added(old(bus).trace(), final(bus).trace()), addr, ERIAR_EXGMAC, mac_version, result),
{
    read(bus, addr, ERIAR_EXGMAC, mac_version)
}

/// ERI write of the EXGMAC type.
pub fn write_exgmac<B: Bus>(bus: &mut B, addr: u32, mask: u32, val: u32, mac_version: u8) -> (result: Result<(), EriError>)
    ensures
        old(bus).trace().len() <= final(bus).trace().len(),
        final(bus).trace().subrange(0, old(bus).trace().len() as int) == old(bus).trace(),
        eri_write_traffic(added(old(bus).trace(), final(bus).trace()), addr, mask, val, ERIAR_EXGMAC, mac_version, result),
{
    write(bus, addr, mask, val, ERIAR_EXGMAC, mac_version)
}

} // verus!
