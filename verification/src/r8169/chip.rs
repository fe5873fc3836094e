//! Chip identification: which Realtek part is on the board, from the XID in TxConfig.

use vstd::prelude::*;

verus! {

/// MAC version number, ordered so that version ranges can be compared.
#[derive(Debug, Clone, Copy, PartialEq, Eq, PartialOrd, Ord)]
pub struct MacVersion(pub u8);

impl MacVersion {
    /// The catch-all matched nothing more specific.
    pub fn none() -> (v: MacVersion)
        ensures
            v.0 == 0,
    {
        MacVersion(0)
    }

    /// Identity lives in a second register that this module does not read: a marker, not a
    /// chip.
    pub fn extended() -> (v: MacVersion)
        ensures
            v.0 == 255,
    {
        MacVersion(255)
    }
}

/// One row of the identification table.
#[derive(Debug, Clone, Copy, PartialEq, Eq)]
pub struct ChipInfo {
    pub mask: u32,
    pub val: u32,
    pub version: MacVersion,
    pub name: &'static str,
}

/// The XID: `(txconfig >> 20) & 0xfcf`; bits 4 and 5 of the shifted value are dropped.
pub fn xid_from_txconfig(txconfig: u32) -> (xid: u32)
    ensures
        xid == (txconfig >> 20u32) & 0xfcf,
{
    (txconfig >> 20) & 0xfcf
}

/// An all-ones TxConfig is a failed PCI read, not a chip.
pub fn txconfig_is_pci_read_failure(txconfig: u32) -> (failed: bool)
    ensures
        failed == (txconfig == u32::MAX),
{
    txconfig == u32::MAX
}

/// The identification table, in scan order: narrower masks precede the family-wide rows that
/// would also match, the extended-identity marker comes second to last, and the last row (mask
/// and value zero) matches every XID.
pub open spec fn spec_chip_infos() -> Seq<ChipInfo> {
    seq![
        ChipInfo { mask: 0x7cf, val: 0x6c9, version: MacVersion(80), name: "RTL8127A" },
        ChipInfo { mask: 0x7cf, val: 0x64a, version: MacVersion(70), name: "RTL8126A" },
        ChipInfo { mask: 0x7cf, val: 0x649, version: MacVersion(70), name: "RTL8126A" },
        ChipInfo { mask: 0x7cf, val: 0x681, version: MacVersion(66), name: "RTL8125BP" },
        ChipInfo { mask: 0x7cf, val: 0x68b, version: MacVersion(64), name: "RTL9151A" },
        ChipInfo { mask: 0x7cf, val: 0x68a, version: MacVersion(64), name: "RTL8125K" },
        ChipInfo { mask: 0x7cf, val: 0x689, version: MacVersion(64), name: "RTL8125D" },
        ChipInfo { mask: 0x7cf, val: 0x688, version: MacVersion(64), name: "RTL8125D" },
        ChipInfo { mask: 0x7cf, val: 0x641, version: MacVersion(63), name: "RTL8125B" },
        ChipInfo { mask: 0x7cf, val: 0x609, version: MacVersion(61), name: "RTL8125A" },
        ChipInfo { mask: 0x7cf, val: 0x54b, version: MacVersion(52), name: "RTL8168fp/RTL8117" },
        ChipInfo { mask: 0x7cf, val: 0x54a, version: MacVersion(52), name: "RTL8168fp/RTL8117" },
        ChipInfo { mask: 0x7cf, val: 0x502, version: MacVersion(51), name: "RTL8168ep/8111ep" },
        ChipInfo { mask: 0x7cf, val: 0x541, version: MacVersion(46), name: "RTL8168h/8111h" },
        ChipInfo { mask: 0x7cf, val: 0x6c0, version: MacVersion(46), name: "RTL8168M" },
        ChipInfo { mask: 0x7cf, val: 0x5c8, version: MacVersion(44), name: "RTL8411b" },
        ChipInfo { mask: 0x7cf, val: 0x509, version: MacVersion(42), name: "RTL8168gu/8111gu" },
        ChipInfo { mask: 0x7cf, val: 0x4c0, version: MacVersion(40), name: "RTL8168g/8111g" },
        ChipInfo { mask: 0x7c8, val: 0x488, version: MacVersion(38), name: "RTL8411" },
        ChipInfo { mask: 0x7cf, val: 0x481, version: MacVersion(36), name: "RTL8168f/8111f" },
        ChipInfo { mask: 0x7cf, val: 0x480, version: MacVersion(35), name: "RTL8168f/8111f" },
        ChipInfo { mask: 0x7c8, val: 0x2c8, version: MacVersion(34), name: "RTL8168evl/8111evl" },
        ChipInfo { mask: 0x7cf, val: 0x2c1, version: MacVersion(32), name: "RTL8168e/8111e" },
        ChipInfo { mask: 0x7c8, val: 0x2c0, version: MacVersion(33), name: "RTL8168e/8111e" },
        ChipInfo { mask: 0x7cf, val: 0x281, version: MacVersion(25), name: "RTL8168d/8111d" },
        ChipInfo { mask: 0x7c8, val: 0x280, version: MacVersion(26), name: "RTL8168d/8111d" },
        ChipInfo { mask: 0x7cf, val: 0x28a, version: MacVersion(28), name: "RTL8168dp/8111dp" },
        ChipInfo { mask: 0x7cf, val: 0x28b, version: MacVersion(31), name: "RTL8168dp/8111dp" },
        ChipInfo { mask: 0x7cf, val: 0x3c9, version: MacVersion(23), name: "RTL8168cp/8111cp" },
        ChipInfo { mask: 0x7cf, val: 0x3c8, version: MacVersion(18), name: "RTL8168cp/8111cp" },
        ChipInfo { mask: 0x7c8, val: 0x3c8, version: MacVersion(24), name: "RTL8168cp/8111cp" },
        ChipInfo { mask: 0x7cf, val: 0x3c0, version: MacVersion(19), name: "RTL8168c/8111c" },
        ChipInfo { mask: 0x7cf, val: 0x3c2, version: MacVersion(20), name: "RTL8168c/8111c" },
        ChipInfo { mask: 0x7cf, val: 0x3c3, version: MacVersion(21), name: "RTL8168c/8111c" },
        ChipInfo { mask: 0x7c8, val: 0x3c0, version: MacVersion(22), name: "RTL8168c/8111c" },
        ChipInfo { mask: 0x7c8, val: 0x380, version: MacVersion(17), name: "RTL8168b/8111b" },
        ChipInfo { mask: 0x7c8, val: 0x300, version: MacVersion(11), name: "RTL8168b/8111b" },
        ChipInfo { mask: 0x7c8, val: 0x448, version: MacVersion(39), name: "RTL8106e" },
        ChipInfo { mask: 0x7c8, val: 0x440, version: MacVersion(37), name: "RTL8402" },
        ChipInfo { mask: 0x7cf, val: 0x409, version: MacVersion(29), name: "RTL8105e" },
        ChipInfo { mask: 0x7c8, val: 0x408, version: MacVersion(30), name: "RTL8105e" },
        ChipInfo { mask: 0x7cf, val: 0x349, version: MacVersion(8), name: "RTL8102e" },
        ChipInfo { mask: 0x7cf, val: 0x249, version: MacVersion(8), name: "RTL8102e" },
        ChipInfo { mask: 0x7cf, val: 0x348, version: MacVersion(7), name: "RTL8102e" },
        ChipInfo { mask: 0x7cf, val: 0x248, version: MacVersion(7), name: "RTL8102e" },
        ChipInfo { mask: 0x7cf, val: 0x240, version: MacVersion(14), name: "RTL8401" },
        ChipInfo { mask: 0x7c8, val: 0x348, version: MacVersion(9), name: "RTL8102e/RTL8103e" },
        ChipInfo { mask: 0x7c8, val: 0x248, version: MacVersion(9), name: "RTL8102e/RTL8103e" },
        ChipInfo { mask: 0x7c8, val: 0x340, version: MacVersion(10), name: "RTL8101e/RTL8100e" },
        ChipInfo { mask: 0xfc8, val: 0x980, version: MacVersion(6), name: "RTL8169sc/8110sc" },
        ChipInfo { mask: 0xfc8, val: 0x180, version: MacVersion(5), name: "RTL8169sc/8110sc" },
        ChipInfo { mask: 0xfc8, val: 0x100, version: MacVersion(4), name: "RTL8169sb/8110sb" },
        ChipInfo { mask: 0xfc8, val: 0x040, version: MacVersion(3), name: "RTL8110s" },
        ChipInfo { mask: 0xfc8, val: 0x008, version: MacVersion(2), name: "RTL8169s" },
        ChipInfo { mask: 0x7cf, val: 0x7c8, version: MacVersion(255), name: "(unnamed)" },
        ChipInfo { mask: 0x000, val: 0x000, version: MacVersion(0), name: "(unnamed)" },
    ]
}

/// The identification table as an array.
pub fn chip_infos() -> (infos: [ChipInfo; 56])
    ensures
        infos@ == spec_chip_infos(),
{
    let infos = [
        ChipInfo { mask: 0x7cf, val: 0x6c9, version: MacVersion(80), name: "RTL8127A" },
        ChipInfo { mask: 0x7cf, val: 0x64a, version: MacVersion(70), name: "RTL8126A" },
        ChipInfo { mask: 0x7cf, val: 0x649, version: MacVersion(70), name: "RTL8126A" },
        ChipInfo { mask: 0x7cf, val: 0x681, version: MacVersion(66), name: "RTL8125BP" },
        ChipInfo { mask: 0x7cf, val: 0x68b, version: MacVersion(64), name: "RTL9151A" },
        ChipInfo { mask: 0x7cf, val: 0x68a, version: MacVersion(64), name: "RTL8125K" },
        ChipInfo { mask: 0x7cf, val: 0x689, version: MacVersion(64), name: "RTL8125D" },
        ChipInfo { mask: 0x7cf, val: 0x688, version: MacVersion(64), name: "RTL8125D" },
        ChipInfo { mask: 0x7cf, val: 0x641, version: MacVersion(63), name: "RTL8125B" },
        ChipInfo { mask: 0x7cf, val: 0x609, version: MacVersion(61), name: "RTL8125A" },
        ChipInfo { mask: 0x7cf, val: 0x54b, version: MacVersion(52), name: "RTL8168fp/RTL8117" },
        ChipInfo { mask: 0x7cf, val: 0x54a, version: MacVersion(52), name: "RTL8168fp/RTL8117" },
        ChipInfo { mask: 0x7cf, val: 0x502, version: MacVersion(51), name: "RTL8168ep/8111ep" },
        ChipInfo { mask: 0x7cf, val: 0x541, version: MacVersion(46), name: "RTL8168h/8111h" },
        ChipInfo { mask: 0x7cf, val: 0x6c0, version: MacVersion(46), name: "RTL8168M" },
        ChipInfo { mask: 0x7cf, val: 0x5c8, version: MacVersion(44), name: "RTL8411b" },
        ChipInfo { mask: 0x7cf, val: 0x509, version: MacVersion(42), name: "RTL8168gu/8111gu" },
        ChipInfo { mask: 0x7cf, val: 0x4c0, version: MacVersion(40), name: "RTL8168g/8111g" },
        ChipInfo { mask: 0x7c8, val: 0x488, version: MacVersion(38), name: "RTL8411" },
        ChipInfo { mask: 0x7cf, val: 0x481, version: MacVersion(36), name: "RTL8168f/8111f" },
        ChipInfo { mask: 0x7cf, val: 0x480, version: MacVersion(35), name: "RTL8168f/8111f" },
        ChipInfo { mask: 0x7c8, val: 0x2c8, version: MacVersion(34), name: "RTL8168evl/8111evl" },
        ChipInfo { mask: 0x7cf, val: 0x2c1, version: MacVersion(32), name: "RTL8168e/8111e" },
        ChipInfo { mask: 0x7c8, val: 0x2c0, version: MacVersion(33), name: "RTL8168e/8111e" },
        ChipInfo { mask: 0x7cf, val: 0x281, version: MacVersion(25), name: "RTL8168d/8111d" },
        ChipInfo { mask: 0x7c8, val: 0x280, version: MacVersion(26), name: "RTL8168d/8111d" },
        ChipInfo { mask: 0x7cf, val: 0x28a, version: MacVersion(28), name: "RTL8168dp/8111dp" },
        ChipInfo { mask: 0x7cf, val: 0x28b, version: MacVersion(31), name: "RTL8168dp/8111dp" },
        ChipInfo { mask: 0x7cf, val: 0x3c9, version: MacVersion(23), name: "RTL8168cp/8111cp" },
        ChipInfo { mask: 0x7cf, val: 0x3c8, version: MacVersion(18), name: "RTL8168cp/8111cp" },
        ChipInfo { mask: 0x7c8, val: 0x3c8, version: MacVersion(24), name: "RTL8168cp/8111cp" },
        ChipInfo { mask: 0x7cf, val: 0x3c0, version: MacVersion(19), name: "RTL8168c/8111c" },
        ChipInfo { mask: 0x7cf, val: 0x3c2, version: MacVersion(20), name: "RTL8168c/8111c" },
        ChipInfo { mask: 0x7cf, val: 0x3c3, version: MacVersion(21), name: "RTL8168c/8111c" },
        ChipInfo { mask: 0x7c8, val: 0x3c0, version: MacVersion(22), name: "RTL8168c/8111c" },
        ChipInfo { mask: 0x7c8, val: 0x380, version: MacVersion(17), name: "RTL8168b/8111b" },
        ChipInfo { mask: 0x7c8, val: 0x300, version: MacVersion(11), name: "RTL8168b/8111b" },
        ChipInfo { mask: 0x7c8, val: 0x448, version: MacVersion(39), name: "RTL8106e" },
        ChipInfo { mask: 0x7c8, val: 0x440, version: MacVersion(37), name: "RTL8402" },
        ChipInfo { mask: 0x7cf, val: 0x409, version: MacVersion(29), name: "RTL8105e" },
        ChipInfo { mask: 0x7c8, val: 0x408, version: MacVersion(30), name: "RTL8105e" },
        ChipInfo { mask: 0x7cf, val: 0x349, version: MacVersion(8), name: "RTL8102e" },
        ChipInfo { mask: 0x7cf, val: 0x249, version: MacVersion(8), name: "RTL8102e" },
        ChipInfo { mask: 0x7cf, val: 0x348, version: MacVersion(7), name: "RTL8102e" },
        ChipInfo { mask: 0x7cf, val: 0x248, version: MacVersion(7), name: "RTL8102e" },
        ChipInfo { mask: 0x7cf, val: 0x240, version: MacVersion(14), name: "RTL8401" },
        ChipInfo { mask: 0x7c8, val: 0x348, version: MacVersion(9), name: "RTL8102e/RTL8103e" },
        ChipInfo { mask: 0x7c8, val: 0x248, version: MacVersion(9), name: "RTL8102e/RTL8103e" },
        ChipInfo { mask: 0x7c8, val: 0x340, version: MacVersion(10), name: "RTL8101e/RTL8100e" },
        ChipInfo { mask: 0xfc8, val: 0x980, version: MacVersion(6), name: "RTL8169sc/8110sc" },
        ChipInfo { mask: 0xfc8, val: 0x180, version: MacVersion(5), name: "RTL8169sc/8110sc" },
        ChipInfo { mask: 0xfc8, val: 0x100, version: MacVersion(4), name: "RTL8169sb/8110sb" },
        ChipInfo { mask: 0xfc8, val: 0x040, version: MacVersion(3), name: "RTL8110s" },
        ChipInfo { mask: 0xfc8, val: 0x008, version: MacVersion(2), name: "RTL8169s" },
        ChipInfo { mask: 0x7cf, val: 0x7c8, version: MacVersion(255), name: "(unnamed)" },
        ChipInfo { mask: 0x000, val: 0x000, version: MacVersion(0), name: "(unnamed)" },
    ];
    assert(infos@ =~= spec_chip_infos());
    infos
}

/// Whether a row claims the XID: `xid & mask == val`.
pub open spec fn row_matches(xid: u32, row: ChipInfo) -> bool {
    xid & row.mask == row.val
}

/// Two parts combine a gigabit MAC with a 100 Mbit PHY: without gmii, version 42 is really an
/// RTL8106eus (version 43) and version 46 an RTL8107e (version 48).
pub open spec fn gmii_adjusted(hit: ChipInfo, gmii: bool) -> ChipInfo {
    if hit.version.0 == 42 && !gmii {
        ChipInfo { version: MacVersion(43), name: "RTL8106eus", ..hit }
    } else if hit.version.0 == 46 && !gmii {
        ChipInfo { version: MacVersion(48), name: "RTL8107e", ..hit }
    } else {
        hit
    }
}

proof fn lemma_and_zero(x: u32)
    by (bit_vector)
    ensures
        x & 0u32 == 0u32,
{
}

/// The index of the first row at or after `k` that claims the XID (56 when none does).
pub open spec fn first_match_from(xid: u32, k: nat) -> nat
    decreases 56 - k,
{
    if k >= 56 {
        56
    } else if row_matches(xid, spec_chip_infos()[k as int]) {
        k
    } else {
        first_match_from(xid, k + 1)
    }
}

/// The identification of an XID: the first row that claims it, with the gmii redirections.
pub open spec fn spec_identify(xid: u32, gmii: bool) -> ChipInfo {
    gmii_adjusted(spec_chip_infos()[first_match_from(xid, 0) as int], gmii)
}

proof fn lemma_first_match_is(xid: u32, i: nat, k: nat)
    requires
        k <= i < 56,
        row_matches(xid, spec_chip_infos()[i as int]),
        forall|j: int| 0 <= j < i ==> !row_matches(xid, #[trigger] spec_chip_infos()[j]),
    ensures
        first_match_from(xid, k) == i,
    decreases i - k,
{
    if k < i {
        assert(!row_matches(xid, spec_chip_infos()[k as int]));
        lemma_first_match_is(xid, i, k + 1);
    }
}

/// Identify the part: the first table row that matches the XID (one always does: the last row
/// matches everything), with the two gmii redirections applied.
pub fn identify(xid: u32, gmii: bool) -> (info: ChipInfo)
    ensures
        info == spec_identify(xid, gmii),
        exists|i: int|
            #![trigger spec_chip_infos()[i]]
            0 <= i < 56 && row_matches(xid, spec_chip_infos()[i]) && (forall|j: int|
                0 <= j < i ==> !row_matches(xid, #[trigger] spec_chip_infos()[j])) && info
                == gmii_adjusted(spec_chip_infos()[i], gmii),
{
    let table = chip_infos();
    let mut i: usize = 0;
    while i < 56
        invariant
            0 <= i <= 56,
            table@ == spec_chip_infos(),
            forall|j: int| 0 <= j < i ==> !row_matches(xid, #[trigger] spec_chip_infos()[j]),
        decreases 56 - i,
    {
        let c = table[i];
        if xid & c.mask == c.val {
            let info = if c.version.0 == 42 && !gmii {
                ChipInfo { version: MacVersion(43), name: "RTL8106eus", ..c }
            } else if c.version.0 == 46 && !gmii {
                ChipInfo { version: MacVersion(48), name: "RTL8107e", ..c }
            } else {
                c
            };
            assert(row_matches(xid, spec_chip_infos()[i as int]));
            proof {
                lemma_first_match_is(xid, i as nat, 0);
            }
            return info;
        }
        i = i + 1;
    }
    proof {
        lemma_and_zero(xid);
        assert(!row_matches(xid, spec_chip_infos()[55]));
    }
    ChipInfo { mask: 0, val: 0, version: MacVersion(0), name: "(no catch-all)" }
}

} // verus!
