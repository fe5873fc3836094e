//! Where the MAC address comes from (platform, then hardware, then MAC0, then random), the
//! hardware sources by MAC version, and how the address is written back.

use vstd::prelude::*;
use crate::r8169::chip::MacVersion;
use crate::r8169::eri::{self, eri_read_traffic, eri_write_traffic, EriError, ERIAR_EXGMAC, ERIAR_MASK_1111};
use crate::r8169::init::{added, Bus, BusOp};
use crate::r8169::regs::{CHIP_CMD, MAC0, MAC4};

verus! {

/// Length of a hardware address.
pub const ETH_ALEN: usize = 6;

/// A hardware address.
pub type MacAddr = [u8; 6];

/// The backup copy of the address on 8125 parts.
pub const MAC0_BKP: u32 = 0x19e0;

/// The two ERI addresses that hold the address on 8168evl-and-later parts.
pub const ERI_MAC_LOW: u32 = 0xe0;
pub const ERI_MAC_HIGH: u32 = 0xe4;

/// Multicast: the low bit of the first octet.
pub open spec fn spec_is_multicast(a: MacAddr) -> bool {
    a[0] & 1 != 0
}

/// All six octets zero.
pub open spec fn spec_is_zero(a: MacAddr) -> bool {
    forall|i: int| 0 <= i < 6 ==> a[i] == 0
}

/// A valid unicast address: not multicast (broadcast included) and not all zero.
pub open spec fn spec_is_valid(a: MacAddr) -> bool {
    !spec_is_multicast(a) && !spec_is_zero(a)
}

/// Whether the address is multicast.
pub fn is_multicast(a: &MacAddr) -> (multicast: bool)
    ensures
        multicast == spec_is_multicast(*a),
{
    a[0] & 1 != 0
}

/// Whether the address is all zero.
pub fn is_zero(a: &MacAddr) -> (zero: bool)
    ensures
        zero == spec_is_zero(*a),
{
    let mut i: usize = 0;
    while i < ETH_ALEN
        invariant
            0 <= i <= 6,
            forall|j: int| 0 <= j < i ==> a[j] == 0,
        decreases 6 - i,
    {
        if a[i] != 0 {
            return false;
        }
        i = i + 1;
    }
    true
}

/// Whether the address is valid: not multicast and not all zero.
pub fn is_valid(a: &MacAddr) -> (valid: bool)
    ensures
        valid == spec_is_valid(*a),
{
    !is_multicast(a) && !is_zero(a)
}

/// 8125 parts: version 61 and later.
pub fn is_8125(v: MacVersion) -> (r: bool)
    ensures
        r == (v.0 >= 61),
{
    v.0 >= 61
}

/// 8168evl and later: versions 34 through 52, except 39.
pub fn is_8168evl_up(v: MacVersion) -> (r: bool)
    ensures
        r == (v.0 >= 34 && v.0 != 39 && v.0 <= 52),
{
    v.0 >= 34 && v.0 != 39 && v.0 <= 52
}

/// Which hardware location, if any, holds the address for a part.
#[derive(Clone, Copy, PartialEq, Eq, Debug)]
pub enum HwMacSource {
    /// ERI 0xe0/0xe4.
    Eri,
    /// The `MAC0_BKP` register block.
    Mac0Bkp,
    /// Neither: nothing is read.
    NoSource,
}

/// ERI for 8168evl-and-later parts other than version 34; the backup block for 8125 parts;
/// nothing otherwise.
pub open spec fn spec_hw_mac_source(v: MacVersion) -> HwMacSource {
    if v.0 >= 34 && v.0 != 39 && v.0 <= 52 && v.0 != 34 {
        HwMacSource::Eri
    } else if v.0 >= 61 {
        HwMacSource::Mac0Bkp
    } else {
        HwMacSource::NoSource
    }
}

/// Which hardware location the address is read from.
pub fn hw_mac_source(v: MacVersion) -> (source: HwMacSource)
    ensures
        source == spec_hw_mac_source(v),
{
    if is_8168evl_up(v) && v.0 != 34 {
        HwMacSource::Eri
    } else if is_8125(v) {
        HwMacSource::Mac0Bkp
    } else {
        HwMacSource::NoSource
    }
}

/// The address from the two ERI words: the four bytes of the low word, least significant
/// first, then the two low bytes of the high word; the upper half of the high word is discarded.
pub open spec fn spec_mac_from_eri_words(low: u32, high: u32) -> MacAddr {
    [
        (low % 256) as u8,
        (low / 256 % 256) as u8,
        (low / 65536 % 256) as u8,
        (low / 16777216 % 256) as u8,
        (high % 256) as u8,
        (high / 256 % 256) as u8,
    ]
}

/// Reassemble the address from the ERI words at 0xe0 and 0xe4.
pub fn mac_from_eri_words(low: u32, high: u32) -> (a: MacAddr)
    ensures
        a == spec_mac_from_eri_words(low, high),
{
    let a = [
        (low % 256) as u8,
        (low / 256 % 256) as u8,
        (low / 65536 % 256) as u8,
        (low / 16777216 % 256) as u8,
        (high % 256) as u8,
        (high / 256 % 256) as u8,
    ];
    assert(a@ =~= spec_mac_from_eri_words(low, high)@);
    a
}

/// The traffic of reading six consecutive byte registers starting at `reg`.
pub open spec fn reg_bytes_traffic(ext: Seq<BusOp>, reg: u32, a: MacAddr) -> bool {
    &&& ext.len() == 6
    &&& forall|i: int| 0 <= i < 6 ==> #[trigger] ext[i] == BusOp::R8 { reg: (reg + i) as u32, val: a[i] }
}

/// Read an address as six separate byte reads at consecutive offsets.
pub fn read_mac_from_reg<B: Bus>(bus: &mut B, reg: u32) -> (a: MacAddr)
    requires
        reg + 5 <= u32::MAX,
    ensures
        old(bus).trace().len() <= final(bus).trace().len(),
        final(bus).trace().subrange(0, old(bus).trace().len() as int) == old(bus).trace(),
        reg_bytes_traffic(added(old(bus).trace(), final(bus).trace()), reg, a),
{
    let ghost t0 = bus.trace();
    let b0 = bus.r8(reg);
    let b1 = bus.r8(reg + 1);
    let b2 = bus.r8(reg + 2);
    let b3 = bus.r8(reg + 3);
    let b4 = bus.r8(reg + 4);
    let b5 = bus.r8(reg + 5);
    let a = [b0, b1, b2, b3, b4, b5];
    proof {
        let ext = added(t0, bus.trace());
        assert(ext =~= seq![
            BusOp::R8 { reg, val: b0 },
            BusOp::R8 { reg: (reg + 1) as u32, val: b1 },
            BusOp::R8 { reg: (reg + 2) as u32, val: b2 },
            BusOp::R8 { reg: (reg + 3) as u32, val: b3 },
            BusOp::R8 { reg: (reg + 4) as u32, val: b4 },
            BusOp::R8 { reg: (reg + 5) as u32, val: b5 },
        ]);
    }
    a
}

/// The traffic of reading the address from hardware. ERI parts read 0xe0 and, if that
/// succeeded, 0xe4 (EXGMAC reads), and give up on the first timeout; backup-block parts read six
/// bytes from [`MAC0_BKP`]; every other part is not consulted at all.
pub open spec fn read_mac_traffic(ext: Seq<BusOp>, v: MacVersion, result: Option<MacAddr>) -> bool {
    match spec_hw_mac_source(v) {
        HwMacSource::Eri => exists|e1: Seq<BusOp>, r1: Result<u32, EriError>|
            #[trigger] eri_read_traffic(e1, ERI_MAC_LOW, ERIAR_EXGMAC, v.0, r1) && match r1 {
                Err(_) => ext == e1 && result is None,
                Ok(low) => exists|e2: Seq<BusOp>, r2: Result<u32, EriError>|
                    #[trigger] eri_read_traffic(e2, ERI_MAC_HIGH, ERIAR_EXGMAC, v.0, r2) && ext
                        == e1 + e2 && match r2 {
                        Err(_) => result is None,
                        Ok(high) => result == Some(spec_mac_from_eri_words(low, high)),
                    },
            },
        HwMacSource::Mac0Bkp => result is Some && reg_bytes_traffic(ext, MAC0_BKP, result->0),
        HwMacSource::NoSource => ext.len() == 0 && result is None,
    }
}

/// Read the address from the part's hardware source; `None` when the part has none or a read
/// timed out.
pub fn read_mac_address<B: Bus>(bus: &mut B, v: MacVersion) -> (result: Option<MacAddr>)
    ensures
        old(bus).trace().len() <= final(bus).trace().len(),
        final(bus).trace().subrange(0, old(bus).trace().len() as int) == old(bus).trace(),
        read_mac_traffic(added(old(bus).trace(), final(bus).trace()), v, result),
{
    let ghost t0 = bus.trace();
    match hw_mac_source(v) {
        HwMacSource::Eri => {
            let r1 = eri::read_exgmac(bus, ERI_MAC_LOW, v.0);
            let ghost t1 = bus.trace();
            let ghost e1 = added(t0, t1);
            assert(t1 =~= t0 + e1);
            let low = match r1 {
                Ok(x) => x,
                Err(_) => {
                    return None;
                },
            };
            let r2 = eri::read_exgmac(bus, ERI_MAC_HIGH, v.0);
            let ghost e2 = added(t1, bus.trace());
            assert(bus.trace() =~= t1 + e2);
            assert(added(t0, bus.trace()) =~= e1 + e2);
            let high = match r2 {
                Ok(x) => x,
                Err(_) => {
                    return None;
                },
            };
            Some(mac_from_eri_words(low, high))
        },
        HwMacSource::Mac0Bkp => Some(read_mac_from_reg(bus, MAC0_BKP)),
        HwMacSource::NoSource => {
            assert(added(t0, bus.trace()) =~= Seq::<BusOp>::empty());
            None
        },
    }
}

/// Which of the four sources supplied the address, in the order they are tried.
#[derive(Clone, Copy, PartialEq, Eq, Debug)]
pub enum MacSource {
    /// Device tree, EFI, or a platform hook.
    Platform,
    /// ERI or the backup block, per [`hw_mac_source`].
    Hardware,
    /// The MAC0 register.
    Mac0,
    /// A random address, drawn by the caller.
    Random,
}

/// The cascade order.
pub const MAC_SOURCE_ORDER: [MacSource; 4] = [
    MacSource::Platform,
    MacSource::Hardware,
    MacSource::Mac0,
    MacSource::Random,
];

/// The cascade: a platform address is taken as given, without validation; a hardware address
/// only if valid; then MAC0 only if valid; otherwise random, with no address.
pub open spec fn spec_select_source(platform: Option<MacAddr>, hardware: Option<MacAddr>, mac0: MacAddr) -> (MacSource, Option<MacAddr>) {
    if platform is Some {
        (MacSource::Platform, platform)
    } else if hardware is Some && spec_is_valid(hardware->0) {
        (MacSource::Hardware, hardware)
    } else if spec_is_valid(mac0) {
        (MacSource::Mac0, Some(mac0))
    } else {
        (MacSource::Random, None)
    }
}

/// Choose the address source.
pub fn select_source(platform: Option<MacAddr>, hardware: Option<MacAddr>, mac0: MacAddr) -> (choice: (MacSource, Option<MacAddr>))
    ensures
        choice == spec_select_source(platform, hardware, mac0),
{
    if let Some(a) = platform {
        return (MacSource::Platform, Some(a));
    }
    if let Some(a) = hardware {
        if is_valid(&a) {
            return (MacSource::Hardware, Some(a));
        }
    }
    if is_valid(&mac0) {
        return (MacSource::Mac0, Some(mac0));
    }
    (MacSource::Random, None)
}

/// A 16-bit little-endian value from two bytes.
pub open spec fn le16(b0: u8, b1: u8) -> int {
    b0 + 256 * b1
}

/// A 32-bit little-endian value from four bytes.
pub open spec fn le32(b0: u8, b1: u8, b2: u8, b3: u8) -> int {
    b0 + 256 * b1 + 65536 * b2 + 16777216 * b3
}

/// The four ERI writes of the EXGMAC address copy: 0xe0/0xe4 hold the address from byte 0,
/// 0xf0/0xf4 the same address shifted by two bytes, with the low half of 0xf0 zero.
pub open spec fn spec_rar_exgmac_words(a: MacAddr) -> Seq<(u32, u32)> {
    seq![
        (0xe0u32, le32(a[0], a[1], a[2], a[3]) as u32),
        (0xe4u32, le16(a[4], a[5]) as u32),
        (0xf0u32, (le16(a[0], a[1]) * 65536) as u32),
        (0xf4u32, le32(a[2], a[3], a[4], a[5]) as u32),
    ]
}

fn le32_of(b0: u8, b1: u8, b2: u8, b3: u8) -> (x: u32)
    ensures
        x == le32(b0, b1, b2, b3),
{
    b0 as u32 + 256 * b1 as u32 + 65536 * b2 as u32 + 16777216 * b3 as u32
}

fn le16_of(b0: u8, b1: u8) -> (x: u32)
    ensures
        x == le16(b0, b1),
{
    b0 as u32 + 256 * b1 as u32
}

/// The four EXGMAC address writes, as `(addr, value)`.
pub fn rar_exgmac_words(a: &MacAddr) -> (words: [(u32, u32); 4])
    ensures
        words@ == spec_rar_exgmac_words(*a),
{
    let le32_0 = le32_of(a[0], a[1], a[2], a[3]);
    let le16_4 = le16_of(a[4], a[5]);
    let le16_0 = le16_of(a[0], a[1]);
    let le32_2 = le32_of(a[2], a[3], a[4], a[5]);
    let words = [(0xe0, le32_0), (0xe4, le16_4), (0xf0, le16_0 * 65536), (0xf4, le32_2)];
    assert(words@ =~= spec_rar_exgmac_words(*a));
    words
}

/// A run of EXGMAC ERI writes of `words`, in order, each with the full byte mask, whatever each
/// one's result.
pub open spec fn eri_writes_traffic(ext: Seq<BusOp>, words: Seq<(u32, u32)>, mac_version: u8) -> bool
    decreases words.len(),
{
    if words.len() == 0 {
        ext.len() == 0
    } else {
        exists|n: int, r: Result<(), EriError>|
            0 <= n <= ext.len() && #[trigger] eri_write_traffic(
                ext.take(n),
                words[0].0,
                ERIAR_MASK_1111,
                words[0].1,
                ERIAR_EXGMAC,
                mac_version,
                r,
            ) && eri_writes_traffic(ext.skip(n), words.skip(1), mac_version)
    }
}

/// The traffic of setting the address: MAC4 first (a 32-bit write of the high 16 bits), a
/// ChipCmd read to flush it, then MAC0 (the low 32 bits) and another flushing read; version 34
/// alone then also writes the EXGMAC copy through ERI.
pub open spec fn rar_set_traffic(ext: Seq<BusOp>, a: MacAddr, v: MacVersion) -> bool {
    &&& ext.len() >= 4
    &&& ext[0] == BusOp::W32 { reg: MAC4, val: le16(a[4], a[5]) as u32 }
    &&& ext[1] is R8 && ext[1]->R8_reg == CHIP_CMD
    &&& ext[2] == BusOp::W32 { reg: MAC0, val: le32(a[0], a[1], a[2], a[3]) as u32 }
    &&& ext[3] is R8 && ext[3]->R8_reg == CHIP_CMD
    &&& if v.0 == 34 {
        eri_writes_traffic(ext.skip(4), spec_rar_exgmac_words(a), v.0)
    } else {
        ext.len() == 4
    }
}

proof fn lemma_eri_writes_step(
    ext: Seq<BusOp>,
    head: Seq<BusOp>,
    tail: Seq<BusOp>,
    words: Seq<(u32, u32)>,
    mac_version: u8,
    r: Result<(), EriError>,
)
    requires
        words.len() > 0,
        ext == head + tail,
        eri_write_traffic(head, words[0].0, ERIAR_MASK_1111, words[0].1, ERIAR_EXGMAC, mac_version, r),
        eri_writes_traffic(tail, words.skip(1), mac_version),
    ensures
        eri_writes_traffic(ext, words, mac_version),
{
    assert(ext.take(head.len() as int) =~= head);
    assert(ext.skip(head.len() as int) =~= tail);
}

/// Set the station address. The config-register unlock around it is the caller's to issue.
pub fn rar_set<B: Bus>(bus: &mut B, a: &MacAddr, v: MacVersion)
    ensures
        old(bus).trace().len() <= final(bus).trace().len(),
        final(bus).trace().subrange(0, old(bus).trace().len() as int) == old(bus).trace(),
        rar_set_traffic(added(old(bus).trace(), final(bus).trace()), *a, v),
{
    let ghost t0 = bus.trace();
    bus.w32(MAC4, le16_of(a[4], a[5]));
    let _ = bus.r8(CHIP_CMD);
    bus.w32(MAC0, le32_of(a[0], a[1], a[2], a[3]));
    let _ = bus.r8(CHIP_CMD);
    let ghost t4 = bus.trace();
    if v.0 == 34 {
        let words = rar_exgmac_words(a);
        let ghost ws = spec_rar_exgmac_words(*a);
        let (a0, v0) = words[0];
        let r0 = eri::write_exgmac(bus, a0, ERIAR_MASK_1111, v0, v.0);
        let ghost t5 = bus.trace();
        let (a1, v1) = words[1];
        let r1 = eri::write_exgmac(bus, a1, ERIAR_MASK_1111, v1, v.0);
        let ghost t6 = bus.trace();
        let (a2, v2) = words[2];
        let r2 = eri::write_exgmac(bus, a2, ERIAR_MASK_1111, v2, v.0);
        let ghost t7 = bus.trace();
        let (a3, v3) = words[3];
        let r3 = eri::write_exgmac(bus, a3, ERIAR_MASK_1111, v3, v.0);
        let ghost t8 = bus.trace();
        proof {
            let x0 = added(t4, t5);
            let x1 = added(t5, t6);
            let x2 = added(t6, t7);
            let x3 = added(t7, t8);
            assert(t5 =~= t4 + x0);
            assert(t6 =~= t5 + x1);
            assert(t7 =~= t6 + x2);
            assert(t8 =~= t7 + x3);
            let empty = Seq::<BusOp>::empty();
            assert(ws.skip(4) =~= Seq::<(u32, u32)>::empty());
            assert(eri_writes_traffic(empty, ws.skip(4), v.0));
            assert(ws.skip(3).skip(1) =~= ws.skip(4));
            assert(ws.skip(3)[0] == ws[3]);
            lemma_eri_writes_step(x3, x3, empty, ws.skip(3), v.0, r3);
            assert(x3 =~= x3 + empty);
            assert(ws.skip(2).skip(1) =~= ws.skip(3));
            assert(ws.skip(2)[0] == ws[2]);
            lemma_eri_writes_step(x2 + x3, x2, x3, ws.skip(2), v.0, r2);
            assert(ws.skip(1).skip(1) =~= ws.skip(2));
            assert(ws.skip(1)[0] == ws[1]);
            lemma_eri_writes_step(x1 + (x2 + x3), x1, x2 + x3, ws.skip(1), v.0, r1);
            lemma_eri_writes_step(x0 + (x1 + (x2 + x3)), x0, x1 + (x2 + x3), ws, v.0, r0);
            let ext = added(t0, t8);
            assert(ext.skip(4) =~= x0 + (x1 + (x2 + x3)));
        }
    }
}

/// The address words that setting the address writes at ERI 0xe0 and 0xe4 read back, through
/// the ERI address source, as the address itself.
pub proof fn lemma_eri_address_words_read_back(a: MacAddr)
    ensures
        ({
            let w = spec_rar_exgmac_words(a);
            spec_mac_from_eri_words(w[0].1, w[1].1) == a
        }),
{
    let w = spec_rar_exgmac_words(a);
    let low = le32(a[0], a[1], a[2], a[3]);
    let high = le16(a[4], a[5]);
    assert(0 <= low < 0x1_0000_0000 && 0 <= high < 0x1_0000);
    assert(w[0].1 == low && w[1].1 == high);
    assert(low % 256 == a[0] && low / 256 % 256 == a[1] && low / 65536 % 256 == a[2] && low
        / 16777216 % 256 == a[3]);
    assert(high % 256 == a[4] && high / 256 % 256 == a[5]);
    assert(spec_mac_from_eri_words(w[0].1, w[1].1)@ =~= a@);
}

/// Only the low half of the high ERI word reaches the address.
pub proof fn lemma_high_eri_word_upper_half_ignored(low: u32, high: u32)
    ensures
        spec_mac_from_eri_words(low, high) == spec_mac_from_eri_words(low, (high % 0x1_0000) as u32),
{
    let h2 = (high % 0x1_0000) as u32;
    assert(high % 256 == h2 % 256 && high / 256 % 256 == h2 / 256 % 256);
    assert(spec_mac_from_eri_words(low, high)@ =~= spec_mac_from_eri_words(low, h2)@);
}

} // verus!
