//! Link state, and the per-chip ERI patch applied when the link comes up.

use vstd::prelude::*;
use crate::r8169::chip::MacVersion;
use crate::r8169::eri::{ERIAR_MASK_0011, ERIAR_MASK_1111};

verus! {

/// The eight PHYstatus bits; together they cover the whole byte.
pub const TBI_ENABLE: u8 = 0x80;
pub const TX_FLOW_CTRL: u8 = 0x40;
pub const RX_FLOW_CTRL: u8 = 0x20;
/// Gigabit, which on this part is full duplex by the bit's own name.
pub const GBPS_FULL: u8 = 0x10;
pub const MBPS_100: u8 = 0x08;
pub const MBPS_10: u8 = 0x04;
pub const LINK_STATUS: u8 = 0x02;
/// The 10/100 duplex indication.
pub const FULL_DUP: u8 = 0x01;
/// The three speed bits.
pub const SPEED_BITS: u8 = 0x1c;

/// What the register says the link is running at.
#[derive(Clone, Copy, PartialEq, Eq, Debug)]
pub enum Speed {
    /// No speed bit set.
    Unresolved,
    M10,
    M100,
    G1000,
    /// More than one speed bit set, with the whole status byte.
    Conflicting(u8),
}

/// A decoded PHYstatus, with the raw byte kept.
#[derive(Clone, Copy, PartialEq, Eq, Debug)]
pub struct PhyStatus {
    pub raw: u8,
    pub up: bool,
    pub speed: Speed,
    pub full_duplex: bool,
    pub tx_pause: bool,
    pub rx_pause: bool,
    pub tbi: bool,
}

/// The speed: exactly one speed bit names it, none is unresolved, several conflict.
pub open spec fn spec_speed(raw: u8) -> Speed {
    let s = raw & SPEED_BITS;
    if s == 0 {
        Speed::Unresolved
    } else if s == GBPS_FULL {
        Speed::G1000
    } else if s == MBPS_100 {
        Speed::M100
    } else if s == MBPS_10 {
        Speed::M10
    } else {
        Speed::Conflicting(raw)
    }
}

/// The decoded status: gigabit is full duplex regardless of `FULL_DUP`, which carries the
/// 10/100 case.
pub open spec fn spec_decode_phy_status(raw: u8) -> PhyStatus {
    PhyStatus {
        raw,
        up: raw & LINK_STATUS != 0,
        speed: spec_speed(raw),
        full_duplex: spec_speed(raw) is G1000 || raw & FULL_DUP != 0,
        tx_pause: raw & TX_FLOW_CTRL != 0,
        rx_pause: raw & RX_FLOW_CTRL != 0,
        tbi: raw & TBI_ENABLE != 0,
    }
}

/// Decode PHYstatus.
pub fn decode_phy_status(raw: u8) -> (status: PhyStatus)
    ensures
        status == spec_decode_phy_status(raw),
{
    let s = raw & SPEED_BITS;
    let speed = if s == 0 {
        Speed::Unresolved
    } else if s == GBPS_FULL {
        Speed::G1000
    } else if s == MBPS_100 {
        Speed::M100
    } else if s == MBPS_10 {
        Speed::M10
    } else {
        Speed::Conflicting(raw)
    };
    PhyStatus {
        raw,
        up: raw & LINK_STATUS != 0,
        speed,
        full_duplex: matches!(speed, Speed::G1000) || raw & FULL_DUP != 0,
        tx_pause: raw & TX_FLOW_CTRL != 0,
        rx_pause: raw & RX_FLOW_CTRL != 0,
        tbi: raw & TBI_ENABLE != 0,
    }
}

/// One ERI write of the link-change patch.
#[derive(Clone, Copy, PartialEq, Eq, Debug)]
pub struct EriWrite {
    pub addr: u32,
    pub mask: u32,
    pub val: u32,
}

/// What a link change costs on a part at a speed: up to two ERI writes and, for some parts, a
/// packet-filter reset.
#[derive(Clone, Copy, PartialEq, Eq, Debug)]
pub struct LinkChgPatch {
    pub writes: [Option<EriWrite>; 2],
    pub reset_packet_filter: bool,
}

/// The number of writes a patch carries.
pub open spec fn spec_patch_len(p: LinkChgPatch) -> nat {
    (if p.writes[0] is Some {
        1nat
    } else {
        0nat
    }) + (if p.writes[1] is Some {
        1nat
    } else {
        0nat
    })
}

/// No writes and no filter reset.
pub open spec fn spec_no_patch() -> LinkChgPatch {
    LinkChgPatch { writes: [None, None], reset_packet_filter: false }
}

impl LinkChgPatch {
    /// The empty patch.
    pub fn none() -> (p: LinkChgPatch)
        ensures
            p == spec_no_patch(),
    {
        LinkChgPatch { writes: [None, None], reset_packet_filter: false }
    }

    /// The number of writes.
    pub fn len(&self) -> (n: usize)
        ensures
            n == spec_patch_len(*self),
    {
        let mut n: usize = 0;
        if self.writes[0].is_some() {
            n = n + 1;
        }
        if self.writes[1].is_some() {
            n = n + 1;
        }
        n
    }

    /// Whether the patch carries no writes.
    pub fn is_empty(&self) -> (empty: bool)
        ensures
            empty == (spec_patch_len(*self) == 0),
    {
        self.len() == 0
    }
}

/// A write with the full byte mask or the two-byte mask.
pub open spec fn ew(addr: u32, mask: u32, val: u32) -> Option<EriWrite> {
    Some(EriWrite { addr, mask, val })
}

/// The link-change patch. Versions 34 and 38 have gigabit, 100 Mbit and fallback arms and reset
/// the packet filter; versions 35 and 36 have gigabit and fallback arms and no reset; version 37
/// writes two registers at 10 Mbit and one otherwise, with the two-byte mask; every other
/// version has no patch. A conflicting or unresolved speed takes the fallback arm.
pub open spec fn spec_link_chg_patch(v: MacVersion, speed: Speed) -> LinkChgPatch {
    let m1111 = ERIAR_MASK_1111;
    let m0011 = ERIAR_MASK_0011;
    if v.0 == 34 || v.0 == 38 {
        if speed is G1000 {
            LinkChgPatch {
                writes: [ew(0x1bc, m1111, 0x11), ew(0x1dc, m1111, 0x05)],
                reset_packet_filter: true,
            }
        } else if speed is M100 {
            LinkChgPatch {
                writes: [ew(0x1bc, m1111, 0x1f), ew(0x1dc, m1111, 0x05)],
                reset_packet_filter: true,
            }
        } else {
            LinkChgPatch {
                writes: [ew(0x1bc, m1111, 0x1f), ew(0x1dc, m1111, 0x3f)],
                reset_packet_filter: true,
            }
        }
    } else if v.0 == 35 || v.0 == 36 {
        if speed is G1000 {
            LinkChgPatch {
                writes: [ew(0x1bc, m1111, 0x11), ew(0x1dc, m1111, 0x05)],
                reset_packet_filter: false,
            }
        } else {
            LinkChgPatch {
                writes: [ew(0x1bc, m1111, 0x1f), ew(0x1dc, m1111, 0x3f)],
                reset_packet_filter: false,
            }
        }
    } else if v.0 == 37 {
        if speed is M10 {
            LinkChgPatch {
                writes: [ew(0x1d0, m0011, 0x4d02), ew(0x1dc, m0011, 0x060a)],
                reset_packet_filter: false,
            }
        } else {
            LinkChgPatch { writes: [ew(0x1d0, m0011, 0x0000), None], reset_packet_filter: false }
        }
    } else {
        spec_no_patch()
    }
}

fn w(addr: u32, mask: u32, val: u32) -> (r: Option<EriWrite>)
    ensures
        r == ew(addr, mask, val),
{
    Some(EriWrite { addr, mask, val })
}

/// The link-change patch for a part at a speed.
pub fn link_chg_patch(v: MacVersion, speed: Speed) -> (p: LinkChgPatch)
    ensures
        p == spec_link_chg_patch(v, speed),
        (spec_patch_len(p) == 0) == !(34 <= v.0 <= 38),
        spec_patch_len(p) == 1 <==> (v.0 == 37 && !(speed is M10)),
{
    let m1111 = ERIAR_MASK_1111;
    let m0011 = ERIAR_MASK_0011;
    if v.0 == 34 || v.0 == 38 {
        match speed {
            Speed::G1000 => LinkChgPatch {
                writes: [w(0x1bc, m1111, 0x0000_0011), w(0x1dc, m1111, 0x0000_0005)],
                reset_packet_filter: true,
            },
            Speed::M100 => LinkChgPatch {
                writes: [w(0x1bc, m1111, 0x0000_001f), w(0x1dc, m1111, 0x0000_0005)],
                reset_packet_filter: true,
            },
            _ => LinkChgPatch {
                writes: [w(0x1bc, m1111, 0x0000_001f), w(0x1dc, m1111, 0x0000_003f)],
                reset_packet_filter: true,
            },
        }
    } else if v.0 == 35 || v.0 == 36 {
        match speed {
            Speed::G1000 => LinkChgPatch {
                writes: [w(0x1bc, m1111, 0x0000_0011), w(0x1dc, m1111, 0x0000_0005)],
                reset_packet_filter: false,
            },
            _ => LinkChgPatch {
                writes: [w(0x1bc, m1111, 0x0000_001f), w(0x1dc, m1111, 0x0000_003f)],
                reset_packet_filter: false,
            },
        }
    } else if v.0 == 37 {
        match speed {
            Speed::M10 => LinkChgPatch {
                writes: [w(0x1d0, m0011, 0x4d02), w(0x1dc, m0011, 0x0060a)],
                reset_packet_filter: false,
            },
            _ => LinkChgPatch { writes: [w(0x1d0, m0011, 0x0000), None], reset_packet_filter: false },
        }
    } else {
        LinkChgPatch::none()
    }
}

/// A read-modify-write through ERI: `(val & !clear) | set`.
#[derive(Clone, Copy, PartialEq, Eq, Debug)]
pub struct EriRmw {
    pub addr: u32,
    /// Bits to set.
    pub set: u32,
    /// Bits to clear.
    pub clear: u32,
}

/// The read-modify-write arithmetic: clear first, then set, so set wins.
pub fn w0w1(old: u32, set: u32, clear: u32) -> (new: u32)
    ensures
        new == (old & !clear) | set,
{
    (old & !clear) | set
}

/// The packet-filter reset: clear bit 0 of ERI 0xdc, then set it.
pub fn packet_filter_pulse() -> (steps: [EriRmw; 2])
    ensures
        steps@ == seq![
            EriRmw { addr: 0xdc, set: 0, clear: 1 },
            EriRmw { addr: 0xdc, set: 1, clear: 0 },
        ],
{
    let steps = [EriRmw { addr: 0xdc, set: 0, clear: 1 }, EriRmw { addr: 0xdc, set: 1, clear: 0 }];
    assert(steps@ =~= seq![
        EriRmw { addr: 0xdc, set: 0, clear: 1 },
        EriRmw { addr: 0xdc, set: 1, clear: 0 },
    ]);
    steps
}

proof fn lemma_pulse_bits(start: u32)
    by (bit_vector)
    requires
        start & 1u32 == 1u32,
    ensures
        (start & !1u32) | 0u32 != start,
        (((start & !1u32) | 0u32) & !0u32) | 1u32 == start,
{
}

/// The pulse is an effect, not a value: starting with bit 0 set, the intermediate state differs
/// from the start and the final state equals it.
pub proof fn lemma_pulse_returns_to_start(start: u32)
    requires
        start & 1 == 1,
    ensures
        (start & !1u32) | 0 != start,
        (((start & !1u32) | 0) & !0u32) | 1 == start,
{
    lemma_pulse_bits(start);
}

/// The patch runs only when the carrier comes up.
pub fn patch_runs_on_link_change(carrier_ok: bool) -> (runs: bool)
    ensures
        runs == carrier_ok,
{
    carrier_ok
}

} // verus!
