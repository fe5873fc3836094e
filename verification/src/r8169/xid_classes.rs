//! The part each XID identifies as: every class of XIDs that the identification table tells
//! apart, with the MAC version and name it maps to, written out row by row.

use vstd::prelude::*;
use crate::r8169::chip::{spec_identify, first_match_from, spec_chip_infos, row_matches, MacVersion};

verus! {

proof fn lemma_xid_bits(x: u32)
    by (bit_vector)
    ensures
        (x & 0x7cfu32 == 0x240u32 ==> x & 0x7c8u32 == 0x240u32),
        (x & 0x7cfu32 == 0x248u32 ==> x & 0x7c8u32 == 0x248u32),
        (x & 0x7cfu32 == 0x249u32 ==> x & 0x7c8u32 == 0x248u32),
        (x & 0x7cfu32 == 0x281u32 ==> x & 0x7c8u32 == 0x280u32),
        (x & 0x7cfu32 == 0x28au32 ==> x & 0x7c8u32 == 0x288u32),
        (x & 0x7cfu32 == 0x28bu32 ==> x & 0x7c8u32 == 0x288u32),
        (x & 0x7cfu32 == 0x2c1u32 ==> x & 0x7c8u32 == 0x2c0u32),
        (x & 0x7cfu32 == 0x348u32 ==> x & 0x7c8u32 == 0x348u32),
        (x & 0x7cfu32 == 0x349u32 ==> x & 0x7c8u32 == 0x348u32),
        (x & 0x7cfu32 == 0x3c0u32 ==> x & 0x7c8u32 == 0x3c0u32),
        (x & 0x7cfu32 == 0x3c2u32 ==> x & 0x7c8u32 == 0x3c0u32),
        (x & 0x7cfu32 == 0x3c3u32 ==> x & 0x7c8u32 == 0x3c0u32),
        (x & 0x7cfu32 == 0x3c8u32 ==> x & 0x7c8u32 == 0x3c8u32),
        (x & 0x7cfu32 == 0x3c9u32 ==> x & 0x7c8u32 == 0x3c8u32),
        (x & 0x7cfu32 == 0x409u32 ==> x & 0x7c8u32 == 0x408u32),
        (x & 0x7cfu32 == 0x480u32 ==> x & 0x7c8u32 == 0x480u32),
        (x & 0x7cfu32 == 0x481u32 ==> x & 0x7c8u32 == 0x480u32),
        (x & 0x7cfu32 == 0x4c0u32 ==> x & 0x7c8u32 == 0x4c0u32),
        (x & 0x7cfu32 == 0x502u32 ==> x & 0x7c8u32 == 0x500u32),
        (x & 0x7cfu32 == 0x509u32 ==> x & 0x7c8u32 == 0x508u32),
        (x & 0x7cfu32 == 0x541u32 ==> x & 0x7c8u32 == 0x540u32),
        (x & 0x7cfu32 == 0x54au32 ==> x & 0x7c8u32 == 0x548u32),
        (x & 0x7cfu32 == 0x54bu32 ==> x & 0x7c8u32 == 0x548u32),
        (x & 0x7cfu32 == 0x5c8u32 ==> x & 0x7c8u32 == 0x5c8u32),
        (x & 0x7cfu32 == 0x609u32 ==> x & 0x7c8u32 == 0x608u32),
        (x & 0x7cfu32 == 0x641u32 ==> x & 0x7c8u32 == 0x640u32),
        (x & 0x7cfu32 == 0x649u32 ==> x & 0x7c8u32 == 0x648u32),
        (x & 0x7cfu32 == 0x64au32 ==> x & 0x7c8u32 == 0x648u32),
        (x & 0x7cfu32 == 0x681u32 ==> x & 0x7c8u32 == 0x680u32),
        (x & 0x7cfu32 == 0x688u32 ==> x & 0x7c8u32 == 0x688u32),
        (x & 0x7cfu32 == 0x689u32 ==> x & 0x7c8u32 == 0x688u32),
        (x & 0x7cfu32 == 0x68au32 ==> x & 0x7c8u32 == 0x688u32),
        (x & 0x7cfu32 == 0x68bu32 ==> x & 0x7c8u32 == 0x688u32),
        (x & 0x7cfu32 == 0x6c0u32 ==> x & 0x7c8u32 == 0x6c0u32),
        (x & 0x7cfu32 == 0x6c9u32 ==> x & 0x7c8u32 == 0x6c8u32),
        (x & 0x7cfu32 == 0x7c8u32 ==> x & 0x7c8u32 == 0x7c8u32),
        x & 0u32 == 0u32,
        (x & 0xfc8u32 == 0x8u32 ==> x & 0x7c8u32 == 0x8u32),
        (x & 0xfc8u32 == 0x40u32 ==> x & 0x7c8u32 == 0x40u32),
        (x & 0xfc8u32 == 0x100u32 ==> x & 0x7c8u32 == 0x100u32),
        (x & 0xfc8u32 == 0x180u32 ==> x & 0x7c8u32 == 0x180u32),
        (x & 0xfc8u32 == 0x980u32 ==> x & 0x7c8u32 == 0x180u32),
{
}

proof fn lemma_xid_row_0(x: u32, gmii: bool)
    requires
        (x & 0x7cf == 0x6c9),
    ensures
        spec_identify(x, gmii).mask == 0x7cf,
        spec_identify(x, gmii).val == 0x6c9,
        spec_identify(x, gmii).version == (if gmii { MacVersion(80) } else { MacVersion(80) }),
        spec_identify(x, gmii).name == (if gmii { "RTL8127A" } else { "RTL8127A" }),
{
    lemma_xid_bits(x);
    assert(row_matches(x, spec_chip_infos()[0]));
    assert(first_match_from(x, 0) == 0);
}

proof fn lemma_xid_row_1(x: u32, gmii: bool)
    requires
        (x & 0x7cf == 0x64a),
    ensures
        spec_identify(x, gmii).mask == 0x7cf,
        spec_identify(x, gmii).val == 0x64a,
        spec_identify(x, gmii).version == (if gmii { MacVersion(70) } else { MacVersion(70) }),
        spec_identify(x, gmii).name == (if gmii { "RTL8126A" } else { "RTL8126A" }),
{
    lemma_xid_bits(x);
    assert(row_matches(x, spec_chip_infos()[1]));
    assert(first_match_from(x, 1) == 1);
    assert(first_match_from(x, 0) == 1);
}

proof fn lemma_xid_row_2(x: u32, gmii: bool)
    requires
        (x & 0x7cf == 0x649),
    ensures
        spec_identify(x, gmii).mask == 0x7cf,
        spec_identify(x, gmii).val == 0x649,
        spec_identify(x, gmii).version == (if gmii { MacVersion(70) } else { MacVersion(70) }),
        spec_identify(x, gmii).name == (if gmii { "RTL8126A" } else { "RTL8126A" }),
{
    lemma_xid_bits(x);
    assert(row_matches(x, spec_chip_infos()[2]));
    assert(first_match_from(x, 2) == 2);
    assert(first_match_from(x, 1) == 2);
    assert(first_match_from(x, 0) == 2);
}

proof fn lemma_xid_row_3(x: u32, gmii: bool)
    requires
        (x & 0x7cf == 0x681),
    ensures
        spec_identify(x, gmii).mask == 0x7cf,
        spec_identify(x, gmii).val == 0x681,
        spec_identify(x, gmii).version == (if gmii { MacVersion(66) } else { MacVersion(66) }),
        spec_identify(x, gmii).name == (if gmii { "RTL8125BP" } else { "RTL8125BP" }),
{
    lemma_xid_bits(x);
    assert(row_matches(x, spec_chip_infos()[3]));
    assert(first_match_from(x, 3) == 3);
    assert(first_match_from(x, 2) == 3);
    assert(first_match_from(x, 1) == 3);
    assert(first_match_from(x, 0) == 3);
}

proof fn lemma_xid_row_4(x: u32, gmii: bool)
    requires
        (x & 0x7cf == 0x68b),
    ensures
        spec_identify(x, gmii).mask == 0x7cf,
        spec_identify(x, gmii).val == 0x68b,
        spec_identify(x, gmii).version == (if gmii { MacVersion(64) } else { MacVersion(64) }),
        spec_identify(x, gmii).name == (if gmii { "RTL9151A" } else { "RTL9151A" }),
{
    lemma_xid_bits(x);
    assert(row_matches(x, spec_chip_infos()[4]));
    assert(first_match_from(x, 4) == 4);
    assert(first_match_from(x, 3) == 4);
    assert(first_match_from(x, 2) == 4);
    assert(first_match_from(x, 1) == 4);
    assert(first_match_from(x, 0) == 4);
}

proof fn lemma_xid_row_5(x: u32, gmii: bool)
    requires
        (x & 0x7cf == 0x68a),
    ensures
        spec_identify(x, gmii).mask == 0x7cf,
        spec_identify(x, gmii).val == 0x68a,
        spec_identify(x, gmii).version == (if gmii { MacVersion(64) } else { MacVersion(64) }),
        spec_identify(x, gmii).name == (if gmii { "RTL8125K" } else { "RTL8125K" }),
{
    lemma_xid_bits(x);
    assert(row_matches(x, spec_chip_infos()[5]));
    assert(first_match_from(x, 5) == 5);
    assert(first_match_from(x, 4) == 5);
    assert(first_match_from(x, 3) == 5);
    assert(first_match_from(x, 2) == 5);
    assert(first_match_from(x, 1) == 5);
    assert(first_match_from(x, 0) == 5);
}

proof fn lemma_xid_row_6(x: u32, gmii: bool)
    requires
        (x & 0x7cf == 0x689),
    ensures
        spec_identify(x, gmii).mask == 0x7cf,
        spec_identify(x, gmii).val == 0x689,
        spec_identify(x, gmii).version == (if gmii { MacVersion(64) } else { MacVersion(64) }),
        spec_identify(x, gmii).name == (if gmii { "RTL8125D" } else { "RTL8125D" }),
{
    lemma_xid_bits(x);
    assert(row_matches(x, spec_chip_infos()[6]));
    assert(first_match_from(x, 6) == 6);
    assert(first_match_from(x, 5) == 6);
    assert(first_match_from(x, 4) == 6);
    assert(first_match_from(x, 3) == 6);
    assert(first_match_from(x, 2) == 6);
    assert(first_match_from(x, 1) == 6);
    assert(first_match_from(x, 0) == 6);
}

proof fn lemma_xid_row_7(x: u32, gmii: bool)
    requires
        (x & 0x7cf == 0x688),
    ensures
        spec_identify(x, gmii).mask == 0x7cf,
        spec_identify(x, gmii).val == 0x688,
        spec_identify(x, gmii).version == (if gmii { MacVersion(64) } else { MacVersion(64) }),
        spec_identify(x, gmii).name == (if gmii { "RTL8125D" } else { "RTL8125D" }),
{
    lemma_xid_bits(x);
    assert(row_matches(x, spec_chip_infos()[7]));
    assert(first_match_from(x, 7) == 7);
    assert(first_match_from(x, 6) == 7);
    assert(first_match_from(x, 5) == 7);
    assert(first_match_from(x, 4) == 7);
    assert(first_match_from(x, 3) == 7);
    assert(first_match_from(x, 2) == 7);
    assert(first_match_from(x, 1) == 7);
    assert(first_match_from(x, 0) == 7);
}

proof fn lemma_xid_row_8(x: u32, gmii: bool)
    requires
        (x & 0x7cf == 0x641),
    ensures
        spec_identify(x, gmii).mask == 0x7cf,
        spec_identify(x, gmii).val == 0x641,
        spec_identify(x, gmii).version == (if gmii { MacVersion(63) } else { MacVersion(63) }),
        spec_identify(x, gmii).name == (if gmii { "RTL8125B" } else { "RTL8125B" }),
{
    lemma_xid_bits(x);
    assert(row_matches(x, spec_chip_infos()[8]));
    assert(first_match_from(x, 8) == 8);
    assert(first_match_from(x, 7) == 8);
    assert(first_match_from(x, 6) == 8);
    assert(first_match_from(x, 5) == 8);
    assert(first_match_from(x, 4) == 8);
    assert(first_match_from(x, 3) == 8);
    assert(first_match_from(x, 2) == 8);
    assert(first_match_from(x, 1) == 8);
    assert(first_match_from(x, 0) == 8);
}

proof fn lemma_xid_row_9(x: u32, gmii: bool)
    requires
        (x & 0x7cf == 0x609),
    ensures
        spec_identify(x, gmii).mask == 0x7cf,
        spec_identify(x, gmii).val == 0x609,
        spec_identify(x, gmii).version == (if gmii { MacVersion(61) } else { MacVersion(61) }),
        spec_identify(x, gmii).name == (if gmii { "RTL8125A" } else { "RTL8125A" }),
{
    lemma_xid_bits(x);
    assert(row_matches(x, spec_chip_infos()[9]));
    assert(first_match_from(x, 9) == 9);
    assert(first_match_from(x, 8) == 9);
    assert(first_match_from(x, 7) == 9);
    assert(first_match_from(x, 6) == 9);
    assert(first_match_from(x, 5) == 9);
    assert(first_match_from(x, 4) == 9);
    assert(first_match_from(x, 3) == 9);
    assert(first_match_from(x, 2) == 9);
    assert(first_match_from(x, 1) == 9);
    assert(first_match_from(x, 0) == 9);
}

proof fn lemma_xid_row_10(x: u32, gmii: bool)
    requires
        (x & 0x7cf == 0x54b),
    ensures
        spec_identify(x, gmii).mask == 0x7cf,
        spec_identify(x, gmii).val == 0x54b,
        spec_identify(x, gmii).version == (if gmii { MacVersion(52) } else { MacVersion(52) }),
        spec_identify(x, gmii).name == (if gmii { "RTL8168fp/RTL8117" } else { "RTL8168fp/RTL8117" }),
{
    lemma_xid_bits(x);
    assert(row_matches(x, spec_chip_infos()[10]));
    assert(first_match_from(x, 10) == 10);
    assert(first_match_from(x, 9) == 10);
    assert(first_match_from(x, 8) == 10);
    assert(first_match_from(x, 7) == 10);
    assert(first_match_from(x, 6) == 10);
    assert(first_match_from(x, 5) == 10);
    assert(first_match_from(x, 4) == 10);
    assert(first_match_from(x, 3) == 10);
    assert(first_match_from(x, 2) == 10);
    assert(first_match_from(x, 1) == 10);
    assert(first_match_from(x, 0) == 10);
}

proof fn lemma_xid_row_11(x: u32, gmii: bool)
    requires
        (x & 0x7cf == 0x54a),
    ensures
        spec_identify(x, gmii).mask == 0x7cf,
        spec_identify(x, gmii).val == 0x54a,
        spec_identify(x, gmii).version == (if gmii { MacVersion(52) } else { MacVersion(52) }),
        spec_identify(x, gmii).name == (if gmii { "RTL8168fp/RTL8117" } else { "RTL8168fp/RTL8117" }),
{
    lemma_xid_bits(x);
    assert(row_matches(x, spec_chip_infos()[11]));
    assert(first_match_from(x, 11) == 11);
    assert(first_match_from(x, 10) == 11);
    assert(first_match_from(x, 9) == 11);
    assert(first_match_from(x, 8) == 11);
    assert(first_match_from(x, 7) == 11);
    assert(first_match_from(x, 6) == 11);
    assert(first_match_from(x, 5) == 11);
    assert(first_match_from(x, 4) == 11);
    assert(first_match_from(x, 3) == 11);
    assert(first_match_from(x, 2) == 11);
    assert(first_match_from(x, 1) == 11);
    assert(first_match_from(x, 0) == 11);
}

proof fn lemma_xid_row_12(x: u32, gmii: bool)
    requires
        (x & 0x7cf == 0x502),
    ensures
        spec_identify(x, gmii).mask == 0x7cf,
        spec_identify(x, gmii).val == 0x502,
        spec_identify(x, gmii).version == (if gmii { MacVersion(51) } else { MacVersion(51) }),
        spec_identify(x, gmii).name == (if gmii { "RTL8168ep/8111ep" } else { "RTL8168ep/8111ep" }),
{
    lemma_xid_bits(x);
    assert(row_matches(x, spec_chip_infos()[12]));
    assert(first_match_from(x, 12) == 12);
    assert(first_match_from(x, 11) == 12);
    assert(first_match_from(x, 10) == 12);
    assert(first_match_from(x, 9) == 12);
    assert(first_match_from(x, 8) == 12);
    assert(first_match_from(x, 7) == 12);
    assert(first_match_from(x, 6) == 12);
    assert(first_match_from(x, 5) == 12);
    assert(first_match_from(x, 4) == 12);
    assert(first_match_from(x, 3) == 12);
    assert(first_match_from(x, 2) == 12);
    assert(first_match_from(x, 1) == 12);
    assert(first_match_from(x, 0) == 12);
}

proof fn lemma_xid_row_13(x: u32, gmii: bool)
    requires
        (x & 0x7cf == 0x541),
    ensures
        spec_identify(x, gmii).mask == 0x7cf,
        spec_identify(x, gmii).val == 0x541,
        spec_identify(x, gmii).version == (if gmii { MacVersion(46) } else { MacVersion(48) }),
        spec_identify(x, gmii).name == (if gmii { "RTL8168h/8111h" } else { "RTL8107e" }),
{
    lemma_xid_bits(x);
    assert(row_matches(x, spec_chip_infos()[13]));
    assert(first_match_from(x, 13) == 13);
    assert(first_match_from(x, 12) == 13);
    assert(first_match_from(x, 11) == 13);
    assert(first_match_from(x, 10) == 13);
    assert(first_match_from(x, 9) == 13);
    assert(first_match_from(x, 8) == 13);
    assert(first_match_from(x, 7) == 13);
    assert(first_match_from(x, 6) == 13);
    assert(first_match_from(x, 5) == 13);
    assert(first_match_from(x, 4) == 13);
    assert(first_match_from(x, 3) == 13);
    assert(first_match_from(x, 2) == 13);
    assert(first_match_from(x, 1) == 13);
    assert(first_match_from(x, 0) == 13);
}

proof fn lemma_xid_row_14(x: u32, gmii: bool)
    requires
        (x & 0x7cf == 0x6c0),
    ensures
        spec_identify(x, gmii).mask == 0x7cf,
        spec_identify(x, gmii).val == 0x6c0,
        spec_identify(x, gmii).version == (if gmii { MacVersion(46) } else { MacVersion(48) }),
        spec_identify(x, gmii).name == (if gmii { "RTL8168M" } else { "RTL8107e" }),
{
    lemma_xid_bits(x);
    assert(row_matches(x, spec_chip_infos()[14]));
    assert(first_match_from(x, 14) == 14);
    assert(first_match_from(x, 13) == 14);
    assert(first_match_from(x, 12) == 14);
    assert(first_match_from(x, 11) == 14);
    assert(first_match_from(x, 10) == 14);
    assert(first_match_from(x, 9) == 14);
    assert(first_match_from(x, 8) == 14);
    assert(first_match_from(x, 7) == 14);
    assert(first_match_from(x, 6) == 14);
    assert(first_match_from(x, 5) == 14);
    assert(first_match_from(x, 4) == 14);
    assert(first_match_from(x, 3) == 14);
    assert(first_match_from(x, 2) == 14);
    assert(first_match_from(x, 1) == 14);
    assert(first_match_from(x, 0) == 14);
}

proof fn lemma_xid_row_15(x: u32, gmii: bool)
    requires
        (x & 0x7cf == 0x5c8),
    ensures
        spec_identify(x, gmii).mask == 0x7cf,
        spec_identify(x, gmii).val == 0x5c8,
        spec_identify(x, gmii).version == (if gmii { MacVersion(44) } else { MacVersion(44) }),
        spec_identify(x, gmii).name == (if gmii { "RTL8411b" } else { "RTL8411b" }),
{
    lemma_xid_bits(x);
    assert(row_matches(x, spec_chip_infos()[15]));
    assert(first_match_from(x, 15) == 15);
    assert(first_match_from(x, 14) == 15);
    assert(first_match_from(x, 13) == 15);
    assert(first_match_from(x, 12) == 15);
    assert(first_match_from(x, 11) == 15);
    assert(first_match_from(x, 10) == 15);
    assert(first_match_from(x, 9) == 15);
    assert(first_match_from(x, 8) == 15);
    assert(first_match_from(x, 7) == 15);
    assert(first_match_from(x, 6) == 15);
    assert(first_match_from(x, 5) == 15);
    assert(first_match_from(x, 4) == 15);
    assert(first_match_from(x, 3) == 15);
    assert(first_match_from(x, 2) == 15);
    assert(first_match_from(x, 1) == 15);
    assert(first_match_from(x, 0) == 15);
}

proof fn lemma_xid_row_16(x: u32, gmii: bool)
    requires
        (x & 0x7cf == 0x509),
    ensures
        spec_identify(x, gmii).mask == 0x7cf,
        spec_identify(x, gmii).val == 0x509,
        spec_identify(x, gmii).version == (if gmii { MacVersion(42) } else { MacVersion(43) }),
        spec_identify(x, gmii).name == (if gmii { "RTL8168gu/8111gu" } else { "RTL8106eus" }),
{
    lemma_xid_bits(x);
    assert(row_matches(x, spec_chip_infos()[16]));
    assert(first_match_from(x, 16) == 16);
    assert(first_match_from(x, 15) == 16);
    assert(first_match_from(x, 14) == 16);
    assert(first_match_from(x, 13) == 16);
    assert(first_match_from(x, 12) == 16);
    assert(first_match_from(x, 11) == 16);
    assert(first_match_from(x, 10) == 16);
    assert(first_match_from(x, 9) == 16);
    assert(first_match_from(x, 8) == 16);
    assert(first_match_from(x, 7) == 16);
    assert(first_match_from(x, 6) == 16);
    assert(first_match_from(x, 5) == 16);
    assert(first_match_from(x, 4) == 16);
    assert(first_match_from(x, 3) == 16);
    assert(first_match_from(x, 2) == 16);
    assert(first_match_from(x, 1) == 16);
    assert(first_match_from(x, 0) == 16);
}

proof fn lemma_xid_row_17(x: u32, gmii: bool)
    requires
        (x & 0x7cf == 0x4c0),
    ensures
        spec_identify(x, gmii).mask == 0x7cf,
        spec_identify(x, gmii).val == 0x4c0,
        spec_identify(x, gmii).version == (if gmii { MacVersion(40) } else { MacVersion(40) }),
        spec_identify(x, gmii).name == (if gmii { "RTL8168g/8111g" } else { "RTL8168g/8111g" }),
{
    lemma_xid_bits(x);
    assert(row_matches(x, spec_chip_infos()[17]));
    assert(first_match_from(x, 17) == 17);
    assert(first_match_from(x, 16) == 17);
    assert(first_match_from(x, 15) == 17);
    assert(first_match_from(x, 14) == 17);
    assert(first_match_from(x, 13) == 17);
    assert(first_match_from(x, 12) == 17);
    assert(first_match_from(x, 11) == 17);
    assert(first_match_from(x, 10) == 17);
    assert(first_match_from(x, 9) == 17);
    assert(first_match_from(x, 8) == 17);
    assert(first_match_from(x, 7) == 17);
    assert(first_match_from(x, 6) == 17);
    assert(first_match_from(x, 5) == 17);
    assert(first_match_from(x, 4) == 17);
    assert(first_match_from(x, 3) == 17);
    assert(first_match_from(x, 2) == 17);
    assert(first_match_from(x, 1) == 17);
    assert(first_match_from(x, 0) == 17);
}

proof fn lemma_xid_row_18(x: u32, gmii: bool)
    requires
        (x & 0x7c8 == 0x488),
    ensures
        spec_identify(x, gmii).mask == 0x7c8,
        spec_identify(x, gmii).val == 0x488,
        spec_identify(x, gmii).version == (if gmii { MacVersion(38) } else { MacVersion(38) }),
        spec_identify(x, gmii).name == (if gmii { "RTL8411" } else { "RTL8411" }),
{
    lemma_xid_bits(x);
    assert(row_matches(x, spec_chip_infos()[18]));
    assert(first_match_from(x, 18) == 18);
    assert(first_match_from(x, 17) == 18);
    assert(first_match_from(x, 16) == 18);
    assert(first_match_from(x, 15) == 18);
    assert(first_match_from(x, 14) == 18);
    assert(first_match_from(x, 13) == 18);
    assert(first_match_from(x, 12) == 18);
    assert(first_match_from(x, 11) == 18);
    assert(first_match_from(x, 10) == 18);
    assert(first_match_from(x, 9) == 18);
    assert(first_match_from(x, 8) == 18);
    assert(first_match_from(x, 7) == 18);
    assert(first_match_from(x, 6) == 18);
    assert(first_match_from(x, 5) == 18);
    assert(first_match_from(x, 4) == 18);
    assert(first_match_from(x, 3) == 18);
    assert(first_match_from(x, 2) == 18);
    assert(first_match_from(x, 1) == 18);
    assert(first_match_from(x, 0) == 18);
}

proof fn lemma_xid_row_19(x: u32, gmii: bool)
    requires
        (x & 0x7cf == 0x481),
    ensures
        spec_identify(x, gmii).mask == 0x7cf,
        spec_identify(x, gmii).val == 0x481,
        spec_identify(x, gmii).version == (if gmii { MacVersion(36) } else { MacVersion(36) }),
        spec_identify(x, gmii).name == (if gmii { "RTL8168f/8111f" } else { "RTL8168f/8111f" }),
{
    lemma_xid_bits(x);
    assert(row_matches(x, spec_chip_infos()[19]));
    assert(first_match_from(x, 19) == 19);
    assert(first_match_from(x, 18) == 19);
    assert(first_match_from(x, 17) == 19);
    assert(first_match_from(x, 16) == 19);
    assert(first_match_from(x, 15) == 19);
    assert(first_match_from(x, 14) == 19);
    assert(first_match_from(x, 13) == 19);
    assert(first_match_from(x, 12) == 19);
    assert(first_match_from(x, 11) == 19);
    assert(first_match_from(x, 10) == 19);
    assert(first_match_from(x, 9) == 19);
    assert(first_match_from(x, 8) == 19);
    assert(first_match_from(x, 7) == 19);
    assert(first_match_from(x, 6) == 19);
    assert(first_match_from(x, 5) == 19);
    assert(first_match_from(x, 4) == 19);
    assert(first_match_from(x, 3) == 19);
    assert(first_match_from(x, 2) == 19);
    assert(first_match_from(x, 1) == 19);
    assert(first_match_from(x, 0) == 19);
}

proof fn lemma_xid_row_20(x: u32, gmii: bool)
    requires
        (x & 0x7cf == 0x480),
    ensures
        spec_identify(x, gmii).mask == 0x7cf,
        spec_identify(x, gmii).val == 0x480,
        spec_identify(x, gmii).version == (if gmii { MacVersion(35) } else { MacVersion(35) }),
        spec_identify(x, gmii).name == (if gmii { "RTL8168f/8111f" } else { "RTL8168f/8111f" }),
{
    lemma_xid_bits(x);
    assert(row_matches(x, spec_chip_infos()[20]));
    assert(first_match_from(x, 20) == 20);
    assert(first_match_from(x, 19) == 20);
    assert(first_match_from(x, 18) == 20);
    assert(first_match_from(x, 17) == 20);
    assert(first_match_from(x, 16) == 20);
    assert(first_match_from(x, 15) == 20);
    assert(first_match_from(x, 14) == 20);
    assert(first_match_from(x, 13) == 20);
    assert(first_match_from(x, 12) == 20);
    assert(first_match_from(x, 11) == 20);
    assert(first_match_from(x, 10) == 20);
    assert(first_match_from(x, 9) == 20);
    assert(first_match_from(x, 8) == 20);
    assert(first_match_from(x, 7) == 20);
    assert(first_match_from(x, 6) == 20);
    assert(first_match_from(x, 5) == 20);
    assert(first_match_from(x, 4) == 20);
    assert(first_match_from(x, 3) == 20);
    assert(first_match_from(x, 2) == 20);
    assert(first_match_from(x, 1) == 20);
    assert(first_match_from(x, 0) == 20);
}

proof fn lemma_xid_row_21(x: u32, gmii: bool)
    requires
        (x & 0x7c8 == 0x2c8),
    ensures
        spec_identify(x, gmii).mask == 0x7c8,
        spec_identify(x, gmii).val == 0x2c8,
        spec_identify(x, gmii).version == (if gmii { MacVersion(34) } else { MacVersion(34) }),
        spec_identify(x, gmii).name == (if gmii { "RTL8168evl/8111evl" } else { "RTL8168evl/8111evl" }),
{
    lemma_xid_bits(x);
    assert(row_matches(x, spec_chip_infos()[21]));
    assert(first_match_from(x, 21) == 21);
    assert(first_match_from(x, 20) == 21);
    assert(first_match_from(x, 19) == 21);
    assert(first_match_from(x, 18) == 21);
    assert(first_match_from(x, 17) == 21);
    assert(first_match_from(x, 16) == 21);
    assert(first_match_from(x, 15) == 21);
    assert(first_match_from(x, 14) == 21);
    assert(first_match_from(x, 13) == 21);
    assert(first_match_from(x, 12) == 21);
    assert(first_match_from(x, 11) == 21);
    assert(first_match_from(x, 10) == 21);
    assert(first_match_from(x, 9) == 21);
    assert(first_match_from(x, 8) == 21);
    assert(first_match_from(x, 7) == 21);
    assert(first_match_from(x, 6) == 21);
    assert(first_match_from(x, 5) == 21);
    assert(first_match_from(x, 4) == 21);
    assert(first_match_from(x, 3) == 21);
    assert(first_match_from(x, 2) == 21);
    assert(first_match_from(x, 1) == 21);
    assert(first_match_from(x, 0) == 21);
}

proof fn lemma_xid_row_22(x: u32, gmii: bool)
    requires
        (x & 0x7cf == 0x2c1),
    ensures
        spec_identify(x, gmii).mask == 0x7cf,
        spec_identify(x, gmii).val == 0x2c1,
        spec_identify(x, gmii).version == (if gmii { MacVersion(32) } else { MacVersion(32) }),
        spec_identify(x, gmii).name == (if gmii { "RTL8168e/8111e" } else { "RTL8168e/8111e" }),
{
    lemma_xid_bits(x);
    assert(row_matches(x, spec_chip_infos()[22]));
    assert(first_match_from(x, 22) == 22);
    assert(first_match_from(x, 21) == 22);
    assert(first_match_from(x, 20) == 22);
    assert(first_match_from(x, 19) == 22);
    assert(first_match_from(x, 18) == 22);
    assert(first_match_from(x, 17) == 22);
    assert(first_match_from(x, 16) == 22);
    assert(first_match_from(x, 15) == 22);
    assert(first_match_from(x, 14) == 22);
    assert(first_match_from(x, 13) == 22);
    assert(first_match_from(x, 12) == 22);
    assert(first_match_from(x, 11) == 22);
    assert(first_match_from(x, 10) == 22);
    assert(first_match_from(x, 9) == 22);
    assert(first_match_from(x, 8) == 22);
    assert(first_match_from(x, 7) == 22);
    assert(first_match_from(x, 6) == 22);
    assert(first_match_from(x, 5) == 22);
    assert(first_match_from(x, 4) == 22);
    assert(first_match_from(x, 3) == 22);
    assert(first_match_from(x, 2) == 22);
    assert(first_match_from(x, 1) == 22);
    assert(first_match_from(x, 0) == 22);
}

proof fn lemma_xid_row_23(x: u32, gmii: bool)
    requires
        (x & 0x7c8 == 0x2c0) && (x & 0x7cf != 0x2c1),
    ensures
        spec_identify(x, gmii).mask == 0x7c8,
        spec_identify(x, gmii).val == 0x2c0,
        spec_identify(x, gmii).version == (if gmii { MacVersion(33) } else { MacVersion(33) }),
        spec_identify(x, gmii).name == (if gmii { "RTL8168e/8111e" } else { "RTL8168e/8111e" }),
{
    lemma_xid_bits(x);
    assert(row_matches(x, spec_chip_infos()[23]));
    assert(first_match_from(x, 23) == 23);
    assert(first_match_from(x, 22) == 23);
    assert(first_match_from(x, 21) == 23);
    assert(first_match_from(x, 20) == 23);
    assert(first_match_from(x, 19) == 23);
    assert(first_match_from(x, 18) == 23);
    assert(first_match_from(x, 17) == 23);
    assert(first_match_from(x, 16) == 23);
    assert(first_match_from(x, 15) == 23);
    assert(first_match_from(x, 14) == 23);
    assert(first_match_from(x, 13) == 23);
    assert(first_match_from(x, 12) == 23);
    assert(first_match_from(x, 11) == 23);
    assert(first_match_from(x, 10) == 23);
    assert(first_match_from(x, 9) == 23);
    assert(first_match_from(x, 8) == 23);
    assert(first_match_from(x, 7) == 23);
    assert(first_match_from(x, 6) == 23);
    assert(first_match_from(x, 5) == 23);
    assert(first_match_from(x, 4) == 23);
    assert(first_match_from(x, 3) == 23);
    assert(first_match_from(x, 2) == 23);
    assert(first_match_from(x, 1) == 23);
    assert(first_match_from(x, 0) == 23);
}

proof fn lemma_xid_row_24(x: u32, gmii: bool)
    requires
        (x & 0x7cf == 0x281),
    ensures
        spec_identify(x, gmii).mask == 0x7cf,
        spec_identify(x, gmii).val == 0x281,
        spec_identify(x, gmii).version == (if gmii { MacVersion(25) } else { MacVersion(25) }),
        spec_identify(x, gmii).name == (if gmii { "RTL8168d/8111d" } else { "RTL8168d/8111d" }),
{
    lemma_xid_bits(x);
    assert(row_matches(x, spec_chip_infos()[24]));
    assert(first_match_from(x, 24) == 24);
    assert(first_match_from(x, 23) == 24);
    assert(first_match_from(x, 22) == 24);
    assert(first_match_from(x, 21) == 24);
    assert(first_match_from(x, 20) == 24);
    assert(first_match_from(x, 19) == 24);
    assert(first_match_from(x, 18) == 24);
    assert(first_match_from(x, 17) == 24);
    assert(first_match_from(x, 16) == 24);
    assert(first_match_from(x, 15) == 24);
    assert(first_match_from(x, 14) == 24);
    assert(first_match_from(x, 13) == 24);
    assert(first_match_from(x, 12) == 24);
    assert(first_match_from(x, 11) == 24);
    assert(first_match_from(x, 10) == 24);
    assert(first_match_from(x, 9) == 24);
    assert(first_match_from(x, 8) == 24);
    assert(first_match_from(x, 7) == 24);
    assert(first_match_from(x, 6) == 24);
    assert(first_match_from(x, 5) == 24);
    assert(first_match_from(x, 4) == 24);
    assert(first_match_from(x, 3) == 24);
    assert(first_match_from(x, 2) == 24);
    assert(first_match_from(x, 1) == 24);
    assert(first_match_from(x, 0) == 24);
}

proof fn lemma_xid_row_25(x: u32, gmii: bool)
    requires
        (x & 0x7c8 == 0x280) && (x & 0x7cf != 0x281),
    ensures
        spec_identify(x, gmii).mask == 0x7c8,
        spec_identify(x, gmii).val == 0x280,
        spec_identify(x, gmii).version == (if gmii { MacVersion(26) } else { MacVersion(26) }),
        spec_identify(x, gmii).name == (if gmii { "RTL8168d/8111d" } else { "RTL8168d/8111d" }),
{
    lemma_xid_bits(x);
    assert(row_matches(x, spec_chip_infos()[25]));
    assert(first_match_from(x, 25) == 25);
    assert(first_match_from(x, 24) == 25);
    assert(first_match_from(x, 23) == 25);
    assert(first_match_from(x, 22) == 25);
    assert(first_match_from(x, 21) == 25);
    assert(first_match_from(x, 20) == 25);
    assert(first_match_from(x, 19) == 25);
    assert(first_match_from(x, 18) == 25);
    assert(first_match_from(x, 17) == 25);
    assert(first_match_from(x, 16) == 25);
    assert(first_match_from(x, 15) == 25);
    assert(first_match_from(x, 14) == 25);
    assert(first_match_from(x, 13) == 25);
    assert(first_match_from(x, 12) == 25);
    assert(first_match_from(x, 11) == 25);
    assert(first_match_from(x, 10) == 25);
    assert(first_match_from(x, 9) == 25);
    assert(first_match_from(x, 8) == 25);
    assert(first_match_from(x, 7) == 25);
    assert(first_match_from(x, 6) == 25);
    assert(first_match_from(x, 5) == 25);
    assert(first_match_from(x, 4) == 25);
    assert(first_match_from(x, 3) == 25);
    assert(first_match_from(x, 2) == 25);
    assert(first_match_from(x, 1) == 25);
    assert(first_match_from(x, 0) == 25);
}

proof fn lemma_xid_row_26(x: u32, gmii: bool)
    requires
        (x & 0x7cf == 0x28a),
    ensures
        spec_identify(x, gmii).mask == 0x7cf,
        spec_identify(x, gmii).val == 0x28a,
        spec_identify(x, gmii).version == (if gmii { MacVersion(28) } else { MacVersion(28) }),
        spec_identify(x, gmii).name == (if gmii { "RTL8168dp/8111dp" } else { "RTL8168dp/8111dp" }),
{
    lemma_xid_bits(x);
    assert(row_matches(x, spec_chip_infos()[26]));
    assert(first_match_from(x, 26) == 26);
    assert(first_match_from(x, 25) == 26);
    assert(first_match_from(x, 24) == 26);
    assert(first_match_from(x, 23) == 26);
    assert(first_match_from(x, 22) == 26);
    assert(first_match_from(x, 21) == 26);
    assert(first_match_from(x, 20) == 26);
    assert(first_match_from(x, 19) == 26);
    assert(first_match_from(x, 18) == 26);
    assert(first_match_from(x, 17) == 26);
    assert(first_match_from(x, 16) == 26);
    assert(first_match_from(x, 15) == 26);
    assert(first_match_from(x, 14) == 26);
    assert(first_match_from(x, 13) == 26);
    assert(first_match_from(x, 12) == 26);
    assert(first_match_from(x, 11) == 26);
    assert(first_match_from(x, 10) == 26);
    assert(first_match_from(x, 9) == 26);
    assert(first_match_from(x, 8) == 26);
    assert(first_match_from(x, 7) == 26);
    assert(first_match_from(x, 6) == 26);
    assert(first_match_from(x, 5) == 26);
    assert(first_match_from(x, 4) == 26);
    assert(first_match_from(x, 3) == 26);
    assert(first_match_from(x, 2) == 26);
    assert(first_match_from(x, 1) == 26);
    assert(first_match_from(x, 0) == 26);
}

proof fn lemma_xid_row_27(x: u32, gmii: bool)
    requires
        (x & 0x7cf == 0x28b),
    ensures
        spec_identify(x, gmii).mask == 0x7cf,
        spec_identify(x, gmii).val == 0x28b,
        spec_identify(x, gmii).version == (if gmii { MacVersion(31) } else { MacVersion(31) }),
        spec_identify(x, gmii).name == (if gmii { "RTL8168dp/8111dp" } else { "RTL8168dp/8111dp" }),
{
    lemma_xid_bits(x);
    assert(row_matches(x, spec_chip_infos()[27]));
    assert(first_match_from(x, 27) == 27);
    assert(first_match_from(x, 26) == 27);
    assert(first_match_from(x, 25) == 27);
    assert(first_match_from(x, 24) == 27);
    assert(first_match_from(x, 23) == 27);
    assert(first_match_from(x, 22) == 27);
    assert(first_match_from(x, 21) == 27);
    assert(first_match_from(x, 20) == 27);
    assert(first_match_from(x, 19) == 27);
    assert(first_match_from(x, 18) == 27);
    assert(first_match_from(x, 17) == 27);
    assert(first_match_from(x, 16) == 27);
    assert(first_match_from(x, 15) == 27);
    assert(first_match_from(x, 14) == 27);
    assert(first_match_from(x, 13) == 27);
    assert(first_match_from(x, 12) == 27);
    assert(first_match_from(x, 11) == 27);
    assert(first_match_from(x, 10) == 27);
    assert(first_match_from(x, 9) == 27);
    assert(first_match_from(x, 8) == 27);
    assert(first_match_from(x, 7) == 27);
    assert(first_match_from(x, 6) == 27);
    assert(first_match_from(x, 5) == 27);
    assert(first_match_from(x, 4) == 27);
    assert(first_match_from(x, 3) == 27);
    assert(first_match_from(x, 2) == 27);
    assert(first_match_from(x, 1) == 27);
    assert(first_match_from(x, 0) == 27);
}

proof fn lemma_xid_row_28(x: u32, gmii: bool)
    requires
        (x & 0x7cf == 0x3c9),
    ensures
        spec_identify(x, gmii).mask == 0x7cf,
        spec_identify(x, gmii).val == 0x3c9,
        spec_identify(x, gmii).version == (if gmii { MacVersion(23) } else { MacVersion(23) }),
        spec_identify(x, gmii).name == (if gmii { "RTL8168cp/8111cp" } else { "RTL8168cp/8111cp" }),
{
    lemma_xid_bits(x);
    assert(row_matches(x, spec_chip_infos()[28]));
    assert(first_match_from(x, 28) == 28);
    assert(first_match_from(x, 27) == 28);
    assert(first_match_from(x, 26) == 28);
    assert(first_match_from(x, 25) == 28);
    assert(first_match_from(x, 24) == 28);
    assert(first_match_from(x, 23) == 28);
    assert(first_match_from(x, 22) == 28);
    assert(first_match_from(x, 21) == 28);
    assert(first_match_from(x, 20) == 28);
    assert(first_match_from(x, 19) == 28);
    assert(first_match_from(x, 18) == 28);
    assert(first_match_from(x, 17) == 28);
    assert(first_match_from(x, 16) == 28);
    assert(first_match_from(x, 15) == 28);
    assert(first_match_from(x, 14) == 28);
    assert(first_match_from(x, 13) == 28);
    assert(first_match_from(x, 12) == 28);
    assert(first_match_from(x, 11) == 28);
    assert(first_match_from(x, 10) == 28);
    assert(first_match_from(x, 9) == 28);
    assert(first_match_from(x, 8) == 28);
    assert(first_match_from(x, 7) == 28);
    assert(first_match_from(x, 6) == 28);
    assert(first_match_from(x, 5) == 28);
    assert(first_match_from(x, 4) == 28);
    assert(first_match_from(x, 3) == 28);
    assert(first_match_from(x, 2) == 28);
    assert(first_match_from(x, 1) == 28);
    assert(first_match_from(x, 0) == 28);
}

proof fn lemma_xid_row_29(x: u32, gmii: bool)
    requires
        (x & 0x7cf == 0x3c8),
    ensures
        spec_identify(x, gmii).mask == 0x7cf,
        spec_identify(x, gmii).val == 0x3c8,
        spec_identify(x, gmii).version == (if gmii { MacVersion(18) } else { MacVersion(18) }),
        spec_identify(x, gmii).name == (if gmii { "RTL8168cp/8111cp" } else { "RTL8168cp/8111cp" }),
{
    lemma_xid_bits(x);
    assert(row_matches(x, spec_chip_infos()[29]));
    assert(first_match_from(x, 29) == 29);
    assert(first_match_from(x, 28) == 29);
    assert(first_match_from(x, 27) == 29);
    assert(first_match_from(x, 26) == 29);
    assert(first_match_from(x, 25) == 29);
    assert(first_match_from(x, 24) == 29);
    assert(first_match_from(x, 23) == 29);
    assert(first_match_from(x, 22) == 29);
    assert(first_match_from(x, 21) == 29);
    assert(first_match_from(x, 20) == 29);
    assert(first_match_from(x, 19) == 29);
    assert(first_match_from(x, 18) == 29);
    assert(first_match_from(x, 17) == 29);
    assert(first_match_from(x, 16) == 29);
    assert(first_match_from(x, 15) == 29);
    assert(first_match_from(x, 14) == 29);
    assert(first_match_from(x, 13) == 29);
    assert(first_match_from(x, 12) == 29);
    assert(first_match_from(x, 11) == 29);
    assert(first_match_from(x, 10) == 29);
    assert(first_match_from(x, 9) == 29);
    assert(first_match_from(x, 8) == 29);
    assert(first_match_from(x, 7) == 29);
    assert(first_match_from(x, 6) == 29);
    assert(first_match_from(x, 5) == 29);
    assert(first_match_from(x, 4) == 29);
    assert(first_match_from(x, 3) == 29);
    assert(first_match_from(x, 2) == 29);
    assert(first_match_from(x, 1) == 29);
    assert(first_match_from(x, 0) == 29);
}

proof fn lemma_xid_row_30(x: u32, gmii: bool)
    requires
        (x & 0x7c8 == 0x3c8) && (x & 0x7cf != 0x3c9) && (x & 0x7cf != 0x3c8),
    ensures
        spec_identify(x, gmii).mask == 0x7c8,
        spec_identify(x, gmii).val == 0x3c8,
        spec_identify(x, gmii).version == (if gmii { MacVersion(24) } else { MacVersion(24) }),
        spec_identify(x, gmii).name == (if gmii { "RTL8168cp/8111cp" } else { "RTL8168cp/8111cp" }),
{
    lemma_xid_bits(x);
    assert(row_matches(x, spec_chip_infos()[30]));
    assert(first_match_from(x, 30) == 30);
    assert(first_match_from(x, 29) == 30);
    assert(first_match_from(x, 28) == 30);
    assert(first_match_from(x, 27) == 30);
    assert(first_match_from(x, 26) == 30);
    assert(first_match_from(x, 25) == 30);
    assert(first_match_from(x, 24) == 30);
    assert(first_match_from(x, 23) == 30);
    assert(first_match_from(x, 22) == 30);
    assert(first_match_from(x, 21) == 30);
    assert(first_match_from(x, 20) == 30);
    assert(first_match_from(x, 19) == 30);
    assert(first_match_from(x, 18) == 30);
    assert(first_match_from(x, 17) == 30);
    assert(first_match_from(x, 16) == 30);
    assert(first_match_from(x, 15) == 30);
    assert(first_match_from(x, 14) == 30);
    assert(first_match_from(x, 13) == 30);
    assert(first_match_from(x, 12) == 30);
    assert(first_match_from(x, 11) == 30);
    assert(first_match_from(x, 10) == 30);
    assert(first_match_from(x, 9) == 30);
    assert(first_match_from(x, 8) == 30);
    assert(first_match_from(x, 7) == 30);
    assert(first_match_from(x, 6) == 30);
    assert(first_match_from(x, 5) == 30);
    assert(first_match_from(x, 4) == 30);
    assert(first_match_from(x, 3) == 30);
    assert(first_match_from(x, 2) == 30);
    assert(first_match_from(x, 1) == 30);
    assert(first_match_from(x, 0) == 30);
}

proof fn lemma_xid_row_31(x: u32, gmii: bool)
    requires
        (x & 0x7cf == 0x3c0),
    ensures
        spec_identify(x, gmii).mask == 0x7cf,
        spec_identify(x, gmii).val == 0x3c0,
        spec_identify(x, gmii).version == (if gmii { MacVersion(19) } else { MacVersion(19) }),
        spec_identify(x, gmii).name == (if gmii { "RTL8168c/8111c" } else { "RTL8168c/8111c" }),
{
    lemma_xid_bits(x);
    assert(row_matches(x, spec_chip_infos()[31]));
    assert(first_match_from(x, 31) == 31);
    assert(first_match_from(x, 30) == 31);
    assert(first_match_from(x, 29) == 31);
    assert(first_match_from(x, 28) == 31);
    assert(first_match_from(x, 27) == 31);
    assert(first_match_from(x, 26) == 31);
    assert(first_match_from(x, 25) == 31);
    assert(first_match_from(x, 24) == 31);
    assert(first_match_from(x, 23) == 31);
    assert(first_match_from(x, 22) == 31);
    assert(first_match_from(x, 21) == 31);
    assert(first_match_from(x, 20) == 31);
    assert(first_match_from(x, 19) == 31);
    assert(first_match_from(x, 18) == 31);
    assert(first_match_from(x, 17) == 31);
    assert(first_match_from(x, 16) == 31);
    assert(first_match_from(x, 15) == 31);
    assert(first_match_from(x, 14) == 31);
    assert(first_match_from(x, 13) == 31);
    assert(first_match_from(x, 12) == 31);
    assert(first_match_from(x, 11) == 31);
    assert(first_match_from(x, 10) == 31);
    assert(first_match_from(x, 9) == 31);
    assert(first_match_from(x, 8) == 31);
    assert(first_match_from(x, 7) == 31);
    assert(first_match_from(x, 6) == 31);
    assert(first_match_from(x, 5) == 31);
    assert(first_match_from(x, 4) == 31);
    assert(first_match_from(x, 3) == 31);
    assert(first_match_from(x, 2) == 31);
    assert(first_match_from(x, 1) == 31);
    assert(first_match_from(x, 0) == 31);
}

proof fn lemma_xid_row_32(x: u32, gmii: bool)
    requires
        (x & 0x7cf == 0x3c2),
    ensures
        spec_identify(x, gmii).mask == 0x7cf,
        spec_identify(x, gmii).val == 0x3c2,
        spec_identify(x, gmii).version == (if gmii { MacVersion(20) } else { MacVersion(20) }),
        spec_identify(x, gmii).name == (if gmii { "RTL8168c/8111c" } else { "RTL8168c/8111c" }),
{
    lemma_xid_bits(x);
    assert(row_matches(x, spec_chip_infos()[32]));
    assert(first_match_from(x, 32) == 32);
    assert(first_match_from(x, 31) == 32);
    assert(first_match_from(x, 30) == 32);
    assert(first_match_from(x, 29) == 32);
    assert(first_match_from(x, 28) == 32);
    assert(first_match_from(x, 27) == 32);
    assert(first_match_from(x, 26) == 32);
    assert(first_match_from(x, 25) == 32);
    assert(first_match_from(x, 24) == 32);
    assert(first_match_from(x, 23) == 32);
    assert(first_match_from(x, 22) == 32);
    assert(first_match_from(x, 21) == 32);
    assert(first_match_from(x, 20) == 32);
    assert(first_match_from(x, 19) == 32);
    assert(first_match_from(x, 18) == 32);
    assert(first_match_from(x, 17) == 32);
    assert(first_match_from(x, 16) == 32);
    assert(first_match_from(x, 15) == 32);
    assert(first_match_from(x, 14) == 32);
    assert(first_match_from(x, 13) == 32);
    assert(first_match_from(x, 12) == 32);
    assert(first_match_from(x, 11) == 32);
    assert(first_match_from(x, 10) == 32);
    assert(first_match_from(x, 9) == 32);
    assert(first_match_from(x, 8) == 32);
    assert(first_match_from(x, 7) == 32);
    assert(first_match_from(x, 6) == 32);
    assert(first_match_from(x, 5) == 32);
    assert(first_match_from(x, 4) == 32);
    assert(first_match_from(x, 3) == 32);
    assert(first_match_from(x, 2) == 32);
    assert(first_match_from(x, 1) == 32);
    assert(first_match_from(x, 0) == 32);
}

proof fn lemma_xid_row_33(x: u32, gmii: bool)
    requires
        (x & 0x7cf == 0x3c3),
    ensures
        spec_identify(x, gmii).mask == 0x7cf,
        spec_identify(x, gmii).val == 0x3c3,
        spec_identify(x, gmii).version == (if gmii { MacVersion(21) } else { MacVersion(21) }),
        spec_identify(x, gmii).name == (if gmii { "RTL8168c/8111c" } else { "RTL8168c/8111c" }),
{
    lemma_xid_bits(x);
    assert(row_matches(x, spec_chip_infos()[33]));
    assert(first_match_from(x, 33) == 33);
    assert(first_match_from(x, 32) == 33);
    assert(first_match_from(x, 31) == 33);
    assert(first_match_from(x, 30) == 33);
    assert(first_match_from(x, 29) == 33);
    assert(first_match_from(x, 28) == 33);
    assert(first_match_from(x, 27) == 33);
    assert(first_match_from(x, 26) == 33);
    assert(first_match_from(x, 25) == 33);
    assert(first_match_from(x, 24) == 33);
    assert(first_match_from(x, 23) == 33);
    assert(first_match_from(x, 22) == 33);
    assert(first_match_from(x, 21) == 33);
    assert(first_match_from(x, 20) == 33);
    assert(first_match_from(x, 19) == 33);
    assert(first_match_from(x, 18) == 33);
    assert(first_match_from(x, 17) == 33);
    assert(first_match_from(x, 16) == 33);
    assert(first_match_from(x, 15) == 33);
    assert(first_match_from(x, 14) == 33);
    assert(first_match_from(x, 13) == 33);
    assert(first_match_from(x, 12) == 33);
    assert(first_match_from(x, 11) == 33);
    assert(first_match_from(x, 10) == 33);
    assert(first_match_from(x, 9) == 33);
    assert(first_match_from(x, 8) == 33);
    assert(first_match_from(x, 7) == 33);
    assert(first_match_from(x, 6) == 33);
    assert(first_match_from(x, 5) == 33);
    assert(first_match_from(x, 4) == 33);
    assert(first_match_from(x, 3) == 33);
    assert(first_match_from(x, 2) == 33);
    assert(first_match_from(x, 1) == 33);
    assert(first_match_from(x, 0) == 33);
}

proof fn lemma_xid_row_34(x: u32, gmii: bool)
    requires
        (x & 0x7c8 == 0x3c0) && (x & 0x7cf != 0x3c0) && (x & 0x7cf != 0x3c2) && (x & 0x7cf != 0x3c3),
    ensures
        spec_identify(x, gmii).mask == 0x7c8,
        spec_identify(x, gmii).val == 0x3c0,
        spec_identify(x, gmii).version == (if gmii { MacVersion(22) } else { MacVersion(22) }),
        spec_identify(x, gmii).name == (if gmii { "RTL8168c/8111c" } else { "RTL8168c/8111c" }),
{
    lemma_xid_bits(x);
    assert(row_matches(x, spec_chip_infos()[34]));
    assert(first_match_from(x, 34) == 34);
    assert(first_match_from(x, 33) == 34);
    assert(first_match_from(x, 32) == 34);
    assert(first_match_from(x, 31) == 34);
    assert(first_match_from(x, 30) == 34);
    assert(first_match_from(x, 29) == 34);
    assert(first_match_from(x, 28) == 34);
    assert(first_match_from(x, 27) == 34);
    assert(first_match_from(x, 26) == 34);
    assert(first_match_from(x, 25) == 34);
    assert(first_match_from(x, 24) == 34);
    assert(first_match_from(x, 23) == 34);
    assert(first_match_from(x, 22) == 34);
    assert(first_match_from(x, 21) == 34);
    assert(first_match_from(x, 20) == 34);
    assert(first_match_from(x, 19) == 34);
    assert(first_match_from(x, 18) == 34);
    assert(first_match_from(x, 17) == 34);
    assert(first_match_from(x, 16) == 34);
    assert(first_match_from(x, 15) == 34);
    assert(first_match_from(x, 14) == 34);
    assert(first_match_from(x, 13) == 34);
    assert(first_match_from(x, 12) == 34);
    assert(first_match_from(x, 11) == 34);
    assert(first_match_from(x, 10) == 34);
    assert(first_match_from(x, 9) == 34);
    assert(first_match_from(x, 8) == 34);
    assert(first_match_from(x, 7) == 34);
    assert(first_match_from(x, 6) == 34);
    assert(first_match_from(x, 5) == 34);
    assert(first_match_from(x, 4) == 34);
    assert(first_match_from(x, 3) == 34);
    assert(first_match_from(x, 2) == 34);
    assert(first_match_from(x, 1) == 34);
    assert(first_match_from(x, 0) == 34);
}

proof fn lemma_xid_row_35(x: u32, gmii: bool)
    requires
        (x & 0x7c8 == 0x380),
    ensures
        spec_identify(x, gmii).mask == 0x7c8,
        spec_identify(x, gmii).val == 0x380,
        spec_identify(x, gmii).version == (if gmii { MacVersion(17) } else { MacVersion(17) }),
        spec_identify(x, gmii).name == (if gmii { "RTL8168b/8111b" } else { "RTL8168b/8111b" }),
{
    lemma_xid_bits(x);
    assert(row_matches(x, spec_chip_infos()[35]));
    assert(first_match_from(x, 35) == 35);
    assert(first_match_from(x, 34) == 35);
    assert(first_match_from(x, 33) == 35);
    assert(first_match_from(x, 32) == 35);
    assert(first_match_from(x, 31) == 35);
    assert(first_match_from(x, 30) == 35);
    assert(first_match_from(x, 29) == 35);
    assert(first_match_from(x, 28) == 35);
    assert(first_match_from(x, 27) == 35);
    assert(first_match_from(x, 26) == 35);
    assert(first_match_from(x, 25) == 35);
    assert(first_match_from(x, 24) == 35);
    assert(first_match_from(x, 23) == 35);
    assert(first_match_from(x, 22) == 35);
    assert(first_match_from(x, 21) == 35);
    assert(first_match_from(x, 20) == 35);
    assert(first_match_from(x, 19) == 35);
    assert(first_match_from(x, 18) == 35);
    assert(first_match_from(x, 17) == 35);
    assert(first_match_from(x, 16) == 35);
    assert(first_match_from(x, 15) == 35);
    assert(first_match_from(x, 14) == 35);
    assert(first_match_from(x, 13) == 35);
    assert(first_match_from(x, 12) == 35);
    assert(first_match_from(x, 11) == 35);
    assert(first_match_from(x, 10) == 35);
    assert(first_match_from(x, 9) == 35);
    assert(first_match_from(x, 8) == 35);
    assert(first_match_from(x, 7) == 35);
    assert(first_match_from(x, 6) == 35);
    assert(first_match_from(x, 5) == 35);
    assert(first_match_from(x, 4) == 35);
    assert(first_match_from(x, 3) == 35);
    assert(first_match_from(x, 2) == 35);
    assert(first_match_from(x, 1) == 35);
    assert(first_match_from(x, 0) == 35);
}

proof fn lemma_xid_row_36(x: u32, gmii: bool)
    requires
        (x & 0x7c8 == 0x300),
    ensures
        spec_identify(x, gmii).mask == 0x7c8,
        spec_identify(x, gmii).val == 0x300,
        spec_identify(x, gmii).version == (if gmii { MacVersion(11) } else { MacVersion(11) }),
        spec_identify(x, gmii).name == (if gmii { "RTL8168b/8111b" } else { "RTL8168b/8111b" }),
{
    lemma_xid_bits(x);
    assert(row_matches(x, spec_chip_infos()[36]));
    assert(first_match_from(x, 36) == 36);
    assert(first_match_from(x, 35) == 36);
    assert(first_match_from(x, 34) == 36);
    assert(first_match_from(x, 33) == 36);
    assert(first_match_from(x, 32) == 36);
    assert(first_match_from(x, 31) == 36);
    assert(first_match_from(x, 30) == 36);
    assert(first_match_from(x, 29) == 36);
    assert(first_match_from(x, 28) == 36);
    assert(first_match_from(x, 27) == 36);
    assert(first_match_from(x, 26) == 36);
    assert(first_match_from(x, 25) == 36);
    assert(first_match_from(x, 24) == 36);
    assert(first_match_from(x, 23) == 36);
    assert(first_match_from(x, 22) == 36);
    assert(first_match_from(x, 21) == 36);
    assert(first_match_from(x, 20) == 36);
    assert(first_match_from(x, 19) == 36);
    assert(first_match_from(x, 18) == 36);
    assert(first_match_from(x, 17) == 36);
    assert(first_match_from(x, 16) == 36);
    assert(first_match_from(x, 15) == 36);
    assert(first_match_from(x, 14) == 36);
    assert(first_match_from(x, 13) == 36);
    assert(first_match_from(x, 12) == 36);
    assert(first_match_from(x, 11) == 36);
    assert(first_match_from(x, 10) == 36);
    assert(first_match_from(x, 9) == 36);
    assert(first_match_from(x, 8) == 36);
    assert(first_match_from(x, 7) == 36);
    assert(first_match_from(x, 6) == 36);
    assert(first_match_from(x, 5) == 36);
    assert(first_match_from(x, 4) == 36);
    assert(first_match_from(x, 3) == 36);
    assert(first_match_from(x, 2) == 36);
    assert(first_match_from(x, 1) == 36);
    assert(first_match_from(x, 0) == 36);
}

proof fn lemma_xid_row_37(x: u32, gmii: bool)
    requires
        (x & 0x7c8 == 0x448),
    ensures
        spec_identify(x, gmii).mask == 0x7c8,
        spec_identify(x, gmii).val == 0x448,
        spec_identify(x, gmii).version == (if gmii { MacVersion(39) } else { MacVersion(39) }),
        spec_identify(x, gmii).name == (if gmii { "RTL8106e" } else { "RTL8106e" }),
{
    lemma_xid_bits(x);
    assert(row_matches(x, spec_chip_infos()[37]));
    assert(first_match_from(x, 37) == 37);
    assert(first_match_from(x, 36) == 37);
    assert(first_match_from(x, 35) == 37);
    assert(first_match_from(x, 34) == 37);
    assert(first_match_from(x, 33) == 37);
    assert(first_match_from(x, 32) == 37);
    assert(first_match_from(x, 31) == 37);
    assert(first_match_from(x, 30) == 37);
    assert(first_match_from(x, 29) == 37);
    assert(first_match_from(x, 28) == 37);
    assert(first_match_from(x, 27) == 37);
    assert(first_match_from(x, 26) == 37);
    assert(first_match_from(x, 25) == 37);
    assert(first_match_from(x, 24) == 37);
    assert(first_match_from(x, 23) == 37);
    assert(first_match_from(x, 22) == 37);
    assert(first_match_from(x, 21) == 37);
    assert(first_match_from(x, 20) == 37);
    assert(first_match_from(x, 19) == 37);
    assert(first_match_from(x, 18) == 37);
    assert(first_match_from(x, 17) == 37);
    assert(first_match_from(x, 16) == 37);
    assert(first_match_from(x, 15) == 37);
    assert(first_match_from(x, 14) == 37);
    assert(first_match_from(x, 13) == 37);
    assert(first_match_from(x, 12) == 37);
    assert(first_match_from(x, 11) == 37);
    assert(first_match_from(x, 10) == 37);
    assert(first_match_from(x, 9) == 37);
    assert(first_match_from(x, 8) == 37);
    assert(first_match_from(x, 7) == 37);
    assert(first_match_from(x, 6) == 37);
    assert(first_match_from(x, 5) == 37);
    assert(first_match_from(x, 4) == 37);
    assert(first_match_from(x, 3) == 37);
    assert(first_match_from(x, 2) == 37);
    assert(first_match_from(x, 1) == 37);
    assert(first_match_from(x, 0) == 37);
}

proof fn lemma_xid_row_38(x: u32, gmii: bool)
    requires
        (x & 0x7c8 == 0x440),
    ensures
        spec_identify(x, gmii).mask == 0x7c8,
        spec_identify(x, gmii).val == 0x440,
        spec_identify(x, gmii).version == (if gmii { MacVersion(37) } else { MacVersion(37) }),
        spec_identify(x, gmii).name == (if gmii { "RTL8402" } else { "RTL8402" }),
{
    lemma_xid_bits(x);
    assert(row_matches(x, spec_chip_infos()[38]));
    assert(first_match_from(x, 38) == 38);
    assert(first_match_from(x, 37) == 38);
    assert(first_match_from(x, 36) == 38);
    assert(first_match_from(x, 35) == 38);
    assert(first_match_from(x, 34) == 38);
    assert(first_match_from(x, 33) == 38);
    assert(first_match_from(x, 32) == 38);
    assert(first_match_from(x, 31) == 38);
    assert(first_match_from(x, 30) == 38);
    assert(first_match_from(x, 29) == 38);
    assert(first_match_from(x, 28) == 38);
    assert(first_match_from(x, 27) == 38);
    assert(first_match_from(x, 26) == 38);
    assert(first_match_from(x, 25) == 38);
    assert(first_match_from(x, 24) == 38);
    assert(first_match_from(x, 23) == 38);
    assert(first_match_from(x, 22) == 38);
    assert(first_match_from(x, 21) == 38);
    assert(first_match_from(x, 20) == 38);
    assert(first_match_from(x, 19) == 38);
    assert(first_match_from(x, 18) == 38);
    assert(first_match_from(x, 17) == 38);
    assert(first_match_from(x, 16) == 38);
    assert(first_match_from(x, 15) == 38);
    assert(first_match_from(x, 14) == 38);
    assert(first_match_from(x, 13) == 38);
    assert(first_match_from(x, 12) == 38);
    assert(first_match_from(x, 11) == 38);
    assert(first_match_from(x, 10) == 38);
    assert(first_match_from(x, 9) == 38);
    assert(first_match_from(x, 8) == 38);
    assert(first_match_from(x, 7) == 38);
    assert(first_match_from(x, 6) == 38);
    assert(first_match_from(x, 5) == 38);
    assert(first_match_from(x, 4) == 38);
    assert(first_match_from(x, 3) == 38);
    assert(first_match_from(x, 2) == 38);
    assert(first_match_from(x, 1) == 38);
    assert(first_match_from(x, 0) == 38);
}

proof fn lemma_xid_row_39(x: u32, gmii: bool)
    requires
        (x & 0x7cf == 0x409),
    ensures
        spec_identify(x, gmii).mask == 0x7cf,
        spec_identify(x, gmii).val == 0x409,
        spec_identify(x, gmii).version == (if gmii { MacVersion(29) } else { MacVersion(29) }),
        spec_identify(x, gmii).name == (if gmii { "RTL8105e" } else { "RTL8105e" }),
{
    lemma_xid_bits(x);
    assert(row_matches(x, spec_chip_infos()[39]));
    assert(first_match_from(x, 39) == 39);
    assert(first_match_from(x, 38) == 39);
    assert(first_match_from(x, 37) == 39);
    assert(first_match_from(x, 36) == 39);
    assert(first_match_from(x, 35) == 39);
    assert(first_match_from(x, 34) == 39);
    assert(first_match_from(x, 33) == 39);
    assert(first_match_from(x, 32) == 39);
    assert(first_match_from(x, 31) == 39);
    assert(first_match_from(x, 30) == 39);
    assert(first_match_from(x, 29) == 39);
    assert(first_match_from(x, 28) == 39);
    assert(first_match_from(x, 27) == 39);
    assert(first_match_from(x, 26) == 39);
    assert(first_match_from(x, 25) == 39);
    assert(first_match_from(x, 24) == 39);
    assert(first_match_from(x, 23) == 39);
    assert(first_match_from(x, 22) == 39);
    assert(first_match_from(x, 21) == 39);
    assert(first_match_from(x, 20) == 39);
    assert(first_match_from(x, 19) == 39);
    assert(first_match_from(x, 18) == 39);
    assert(first_match_from(x, 17) == 39);
    assert(first_match_from(x, 16) == 39);
    assert(first_match_from(x, 15) == 39);
    assert(first_match_from(x, 14) == 39);
    assert(first_match_from(x, 13) == 39);
    assert(first_match_from(x, 12) == 39);
    assert(first_match_from(x, 11) == 39);
    assert(first_match_from(x, 10) == 39);
    assert(first_match_from(x, 9) == 39);
    assert(first_match_from(x, 8) == 39);
    assert(first_match_from(x, 7) == 39);
    assert(first_match_from(x, 6) == 39);
    assert(first_match_from(x, 5) == 39);
    assert(first_match_from(x, 4) == 39);
    assert(first_match_from(x, 3) == 39);
    assert(first_match_from(x, 2) == 39);
    assert(first_match_from(x, 1) == 39);
    assert(first_match_from(x, 0) == 39);
}

proof fn lemma_xid_row_40(x: u32, gmii: bool)
    requires
        (x & 0x7c8 == 0x408) && (x & 0x7cf != 0x409),
    ensures
        spec_identify(x, gmii).mask == 0x7c8,
        spec_identify(x, gmii).val == 0x408,
        spec_identify(x, gmii).version == (if gmii { MacVersion(30) } else { MacVersion(30) }),
        spec_identify(x, gmii).name == (if gmii { "RTL8105e" } else { "RTL8105e" }),
{
    lemma_xid_bits(x);
    assert(row_matches(x, spec_chip_infos()[40]));
    assert(first_match_from(x, 40) == 40);
    assert(first_match_from(x, 39) == 40);
    assert(first_match_from(x, 38) == 40);
    assert(first_match_from(x, 37) == 40);
    assert(first_match_from(x, 36) == 40);
    assert(first_match_from(x, 35) == 40);
    assert(first_match_from(x, 34) == 40);
    assert(first_match_from(x, 33) == 40);
    assert(first_match_from(x, 32) == 40);
    assert(first_match_from(x, 31) == 40);
    assert(first_match_from(x, 30) == 40);
    assert(first_match_from(x, 29) == 40);
    assert(first_match_from(x, 28) == 40);
    assert(first_match_from(x, 27) == 40);
    assert(first_match_from(x, 26) == 40);
    assert(first_match_from(x, 25) == 40);
    assert(first_match_from(x, 24) == 40);
    assert(first_match_from(x, 23) == 40);
    assert(first_match_from(x, 22) == 40);
    assert(first_match_from(x, 21) == 40);
    assert(first_match_from(x, 20) == 40);
    assert(first_match_from(x, 19) == 40);
    assert(first_match_from(x, 18) == 40);
    assert(first_match_from(x, 17) == 40);
    assert(first_match_from(x, 16) == 40);
    assert(first_match_from(x, 15) == 40);
    assert(first_match_from(x, 14) == 40);
    assert(first_match_from(x, 13) == 40);
    assert(first_match_from(x, 12) == 40);
    assert(first_match_from(x, 11) == 40);
    assert(first_match_from(x, 10) == 40);
    assert(first_match_from(x, 9) == 40);
    assert(first_match_from(x, 8) == 40);
    assert(first_match_from(x, 7) == 40);
    assert(first_match_from(x, 6) == 40);
    assert(first_match_from(x, 5) == 40);
    assert(first_match_from(x, 4) == 40);
    assert(first_match_from(x, 3) == 40);
    assert(first_match_from(x, 2) == 40);
    assert(first_match_from(x, 1) == 40);
    assert(first_match_from(x, 0) == 40);
}

proof fn lemma_xid_row_41(x: u32, gmii: bool)
    requires
        (x & 0x7cf == 0x349),
    ensures
        spec_identify(x, gmii).mask == 0x7cf,
        spec_identify(x, gmii).val == 0x349,
        spec_identify(x, gmii).version == (if gmii { MacVersion(8) } else { MacVersion(8) }),
        spec_identify(x, gmii).name == (if gmii { "RTL8102e" } else { "RTL8102e" }),
{
    lemma_xid_bits(x);
    assert(row_matches(x, spec_chip_infos()[41]));
    assert(first_match_from(x, 41) == 41);
    assert(first_match_from(x, 40) == 41);
    assert(first_match_from(x, 39) == 41);
    assert(first_match_from(x, 38) == 41);
    assert(first_match_from(x, 37) == 41);
    assert(first_match_from(x, 36) == 41);
    assert(first_match_from(x, 35) == 41);
    assert(first_match_from(x, 34) == 41);
    assert(first_match_from(x, 33) == 41);
    assert(first_match_from(x, 32) == 41);
    assert(first_match_from(x, 31) == 41);
    assert(first_match_from(x, 30) == 41);
    assert(first_match_from(x, 29) == 41);
    assert(first_match_from(x, 28) == 41);
    assert(first_match_from(x, 27) == 41);
    assert(first_match_from(x, 26) == 41);
    assert(first_match_from(x, 25) == 41);
    assert(first_match_from(x, 24) == 41);
    assert(first_match_from(x, 23) == 41);
    assert(first_match_from(x, 22) == 41);
    assert(first_match_from(x, 21) == 41);
    assert(first_match_from(x, 20) == 41);
    assert(first_match_from(x, 19) == 41);
    assert(first_match_from(x, 18) == 41);
    assert(first_match_from(x, 17) == 41);
    assert(first_match_from(x, 16) == 41);
    assert(first_match_from(x, 15) == 41);
    assert(first_match_from(x, 14) == 41);
    assert(first_match_from(x, 13) == 41);
    assert(first_match_from(x, 12) == 41);
    assert(first_match_from(x, 11) == 41);
    assert(first_match_from(x, 10) == 41);
    assert(first_match_from(x, 9) == 41);
    assert(first_match_from(x, 8) == 41);
    assert(first_match_from(x, 7) == 41);
    assert(first_match_from(x, 6) == 41);
    assert(first_match_from(x, 5) == 41);
    assert(first_match_from(x, 4) == 41);
    assert(first_match_from(x, 3) == 41);
    assert(first_match_from(x, 2) == 41);
    assert(first_match_from(x, 1) == 41);
    assert(first_match_from(x, 0) == 41);
}

proof fn lemma_xid_row_42(x: u32, gmii: bool)
    requires
        (x & 0x7cf == 0x249),
    ensures
        spec_identify(x, gmii).mask == 0x7cf,
        spec_identify(x, gmii).val == 0x249,
        spec_identify(x, gmii).version == (if gmii { MacVersion(8) } else { MacVersion(8) }),
        spec_identify(x, gmii).name == (if gmii { "RTL8102e" } else { "RTL8102e" }),
{
    lemma_xid_bits(x);
    assert(row_matches(x, spec_chip_infos()[42]));
    assert(first_match_from(x, 42) == 42);
    assert(first_match_from(x, 41) == 42);
    assert(first_match_from(x, 40) == 42);
    assert(first_match_from(x, 39) == 42);
    assert(first_match_from(x, 38) == 42);
    assert(first_match_from(x, 37) == 42);
    assert(first_match_from(x, 36) == 42);
    assert(first_match_from(x, 35) == 42);
    assert(first_match_from(x, 34) == 42);
    assert(first_match_from(x, 33) == 42);
    assert(first_match_from(x, 32) == 42);
    assert(first_match_from(x, 31) == 42);
    assert(first_match_from(x, 30) == 42);
    assert(first_match_from(x, 29) == 42);
    assert(first_match_from(x, 28) == 42);
    assert(first_match_from(x, 27) == 42);
    assert(first_match_from(x, 26) == 42);
    assert(first_match_from(x, 25) == 42);
    assert(first_match_from(x, 24) == 42);
    assert(first_match_from(x, 23) == 42);
    assert(first_match_from(x, 22) == 42);
    assert(first_match_from(x, 21) == 42);
    assert(first_match_from(x, 20) == 42);
    assert(first_match_from(x, 19) == 42);
    assert(first_match_from(x, 18) == 42);
    assert(first_match_from(x, 17) == 42);
    assert(first_match_from(x, 16) == 42);
    assert(first_match_from(x, 15) == 42);
    assert(first_match_from(x, 14) == 42);
    assert(first_match_from(x, 13) == 42);
    assert(first_match_from(x, 12) == 42);
    assert(first_match_from(x, 11) == 42);
    assert(first_match_from(x, 10) == 42);
    assert(first_match_from(x, 9) == 42);
    assert(first_match_from(x, 8) == 42);
    assert(first_match_from(x, 7) == 42);
    assert(first_match_from(x, 6) == 42);
    assert(first_match_from(x, 5) == 42);
    assert(first_match_from(x, 4) == 42);
    assert(first_match_from(x, 3) == 42);
    assert(first_match_from(x, 2) == 42);
    assert(first_match_from(x, 1) == 42);
    assert(first_match_from(x, 0) == 42);
}

proof fn lemma_xid_row_43(x: u32, gmii: bool)
    requires
        (x & 0x7cf == 0x348),
    ensures
        spec_identify(x, gmii).mask == 0x7cf,
        spec_identify(x, gmii).val == 0x348,
        spec_identify(x, gmii).version == (if gmii { MacVersion(7) } else { MacVersion(7) }),
        spec_identify(x, gmii).name == (if gmii { "RTL8102e" } else { "RTL8102e" }),
{
    lemma_xid_bits(x);
    assert(row_matches(x, spec_chip_infos()[43]));
    assert(first_match_from(x, 43) == 43);
    assert(first_match_from(x, 42) == 43);
    assert(first_match_from(x, 41) == 43);
    assert(first_match_from(x, 40) == 43);
    assert(first_match_from(x, 39) == 43);
    assert(first_match_from(x, 38) == 43);
    assert(first_match_from(x, 37) == 43);
    assert(first_match_from(x, 36) == 43);
    assert(first_match_from(x, 35) == 43);
    assert(first_match_from(x, 34) == 43);
    assert(first_match_from(x, 33) == 43);
    assert(first_match_from(x, 32) == 43);
    assert(first_match_from(x, 31) == 43);
    assert(first_match_from(x, 30) == 43);
    assert(first_match_from(x, 29) == 43);
    assert(first_match_from(x, 28) == 43);
    assert(first_match_from(x, 27) == 43);
    assert(first_match_from(x, 26) == 43);
    assert(first_match_from(x, 25) == 43);
    assert(first_match_from(x, 24) == 43);
    assert(first_match_from(x, 23) == 43);
    assert(first_match_from(x, 22) == 43);
    assert(first_match_from(x, 21) == 43);
    assert(first_match_from(x, 20) == 43);
    assert(first_match_from(x, 19) == 43);
    assert(first_match_from(x, 18) == 43);
    assert(first_match_from(x, 17) == 43);
    assert(first_match_from(x, 16) == 43);
    assert(first_match_from(x, 15) == 43);
    assert(first_match_from(x, 14) == 43);
    assert(first_match_from(x, 13) == 43);
    assert(first_match_from(x, 12) == 43);
    assert(first_match_from(x, 11) == 43);
    assert(first_match_from(x, 10) == 43);
    assert(first_match_from(x, 9) == 43);
    assert(first_match_from(x, 8) == 43);
    assert(first_match_from(x, 7) == 43);
    assert(first_match_from(x, 6) == 43);
    assert(first_match_from(x, 5) == 43);
    assert(first_match_from(x, 4) == 43);
    assert(first_match_from(x, 3) == 43);
    assert(first_match_from(x, 2) == 43);
    assert(first_match_from(x, 1) == 43);
    assert(first_match_from(x, 0) == 43);
}

proof fn lemma_xid_row_44(x: u32, gmii: bool)
    requires
        (x & 0x7cf == 0x248),
    ensures
        spec_identify(x, gmii).mask == 0x7cf,
        spec_identify(x, gmii).val == 0x248,
        spec_identify(x, gmii).version == (if gmii { MacVersion(7) } else { MacVersion(7) }),
        spec_identify(x, gmii).name == (if gmii { "RTL8102e" } else { "RTL8102e" }),
{
    lemma_xid_bits(x);
    assert(row_matches(x, spec_chip_infos()[44]));
    assert(first_match_from(x, 44) == 44);
    assert(first_match_from(x, 43) == 44);
    assert(first_match_from(x, 42) == 44);
    assert(first_match_from(x, 41) == 44);
    assert(first_match_from(x, 40) == 44);
    assert(first_match_from(x, 39) == 44);
    assert(first_match_from(x, 38) == 44);
    assert(first_match_from(x, 37) == 44);
    assert(first_match_from(x, 36) == 44);
    assert(first_match_from(x, 35) == 44);
    assert(first_match_from(x, 34) == 44);
    assert(first_match_from(x, 33) == 44);
    assert(first_match_from(x, 32) == 44);
    assert(first_match_from(x, 31) == 44);
    assert(first_match_from(x, 30) == 44);
    assert(first_match_from(x, 29) == 44);
    assert(first_match_from(x, 28) == 44);
    assert(first_match_from(x, 27) == 44);
    assert(first_match_from(x, 26) == 44);
    assert(first_match_from(x, 25) == 44);
    assert(first_match_from(x, 24) == 44);
    assert(first_match_from(x, 23) == 44);
    assert(first_match_from(x, 22) == 44);
    assert(first_match_from(x, 21) == 44);
    assert(first_match_from(x, 20) == 44);
    assert(first_match_from(x, 19) == 44);
    assert(first_match_from(x, 18) == 44);
    assert(first_match_from(x, 17) == 44);
    assert(first_match_from(x, 16) == 44);
    assert(first_match_from(x, 15) == 44);
    assert(first_match_from(x, 14) == 44);
    assert(first_match_from(x, 13) == 44);
    assert(first_match_from(x, 12) == 44);
    assert(first_match_from(x, 11) == 44);
    assert(first_match_from(x, 10) == 44);
    assert(first_match_from(x, 9) == 44);
    assert(first_match_from(x, 8) == 44);
    assert(first_match_from(x, 7) == 44);
    assert(first_match_from(x, 6) == 44);
    assert(first_match_from(x, 5) == 44);
    assert(first_match_from(x, 4) == 44);
    assert(first_match_from(x, 3) == 44);
    assert(first_match_from(x, 2) == 44);
    assert(first_match_from(x, 1) == 44);
    assert(first_match_from(x, 0) == 44);
}

proof fn lemma_xid_row_45(x: u32, gmii: bool)
    requires
        (x & 0x7cf == 0x240),
    ensures
        spec_identify(x, gmii).mask == 0x7cf,
        spec_identify(x, gmii).val == 0x240,
        spec_identify(x, gmii).version == (if gmii { MacVersion(14) } else { MacVersion(14) }),
        spec_identify(x, gmii).name == (if gmii { "RTL8401" } else { "RTL8401" }),
{
    lemma_xid_bits(x);
    assert(row_matches(x, spec_chip_infos()[45]));
    assert(first_match_from(x, 45) == 45);
    assert(first_match_from(x, 44) == 45);
    assert(first_match_from(x, 43) == 45);
    assert(first_match_from(x, 42) == 45);
    assert(first_match_from(x, 41) == 45);
    assert(first_match_from(x, 40) == 45);
    assert(first_match_from(x, 39) == 45);
    assert(first_match_from(x, 38) == 45);
    assert(first_match_from(x, 37) == 45);
    assert(first_match_from(x, 36) == 45);
    assert(first_match_from(x, 35) == 45);
    assert(first_match_from(x, 34) == 45);
    assert(first_match_from(x, 33) == 45);
    assert(first_match_from(x, 32) == 45);
    assert(first_match_from(x, 31) == 45);
    assert(first_match_from(x, 30) == 45);
    assert(first_match_from(x, 29) == 45);
    assert(first_match_from(x, 28) == 45);
    assert(first_match_from(x, 27) == 45);
    assert(first_match_from(x, 26) == 45);
    assert(first_match_from(x, 25) == 45);
    assert(first_match_from(x, 24) == 45);
    assert(first_match_from(x, 23) == 45);
    assert(first_match_from(x, 22) == 45);
    assert(first_match_from(x, 21) == 45);
    assert(first_match_from(x, 20) == 45);
    assert(first_match_from(x, 19) == 45);
    assert(first_match_from(x, 18) == 45);
    assert(first_match_from(x, 17) == 45);
    assert(first_match_from(x, 16) == 45);
    assert(first_match_from(x, 15) == 45);
    assert(first_match_from(x, 14) == 45);
    assert(first_match_from(x, 13) == 45);
    assert(first_match_from(x, 12) == 45);
    assert(first_match_from(x, 11) == 45);
    assert(first_match_from(x, 10) == 45);
    assert(first_match_from(x, 9) == 45);
    assert(first_match_from(x, 8) == 45);
    assert(first_match_from(x, 7) == 45);
    assert(first_match_from(x, 6) == 45);
    assert(first_match_from(x, 5) == 45);
    assert(first_match_from(x, 4) == 45);
    assert(first_match_from(x, 3) == 45);
    assert(first_match_from(x, 2) == 45);
    assert(first_match_from(x, 1) == 45);
    assert(first_match_from(x, 0) == 45);
}

proof fn lemma_xid_row_46(x: u32, gmii: bool)
    requires
        (x & 0x7c8 == 0x348) && (x & 0x7cf != 0x349) && (x & 0x7cf != 0x348),
    ensures
        spec_identify(x, gmii).mask == 0x7c8,
        spec_identify(x, gmii).val == 0x348,
        spec_identify(x, gmii).version == (if gmii { MacVersion(9) } else { MacVersion(9) }),
        spec_identify(x, gmii).name == (if gmii { "RTL8102e/RTL8103e" } else { "RTL8102e/RTL8103e" }),
{
    lemma_xid_bits(x);
    assert(row_matches(x, spec_chip_infos()[46]));
    assert(first_match_from(x, 46) == 46);
    assert(first_match_from(x, 45) == 46);
    assert(first_match_from(x, 44) == 46);
    assert(first_match_from(x, 43) == 46);
    assert(first_match_from(x, 42) == 46);
    assert(first_match_from(x, 41) == 46);
    assert(first_match_from(x, 40) == 46);
    assert(first_match_from(x, 39) == 46);
    assert(first_match_from(x, 38) == 46);
    assert(first_match_from(x, 37) == 46);
    assert(first_match_from(x, 36) == 46);
    assert(first_match_from(x, 35) == 46);
    assert(first_match_from(x, 34) == 46);
    assert(first_match_from(x, 33) == 46);
    assert(first_match_from(x, 32) == 46);
    assert(first_match_from(x, 31) == 46);
    assert(first_match_from(x, 30) == 46);
    assert(first_match_from(x, 29) == 46);
    assert(first_match_from(x, 28) == 46);
    assert(first_match_from(x, 27) == 46);
    assert(first_match_from(x, 26) == 46);
    assert(first_match_from(x, 25) == 46);
    assert(first_match_from(x, 24) == 46);
    assert(first_match_from(x, 23) == 46);
    assert(first_match_from(x, 22) == 46);
    assert(first_match_from(x, 21) == 46);
    assert(first_match_from(x, 20) == 46);
    assert(first_match_from(x, 19) == 46);
    assert(first_match_from(x, 18) == 46);
    assert(first_match_from(x, 17) == 46);
    assert(first_match_from(x, 16) == 46);
    assert(first_match_from(x, 15) == 46);
    assert(first_match_from(x, 14) == 46);
    assert(first_match_from(x, 13) == 46);
    assert(first_match_from(x, 12) == 46);
    assert(first_match_from(x, 11) == 46);
    assert(first_match_from(x, 10) == 46);
    assert(first_match_from(x, 9) == 46);
    assert(first_match_from(x, 8) == 46);
    assert(first_match_from(x, 7) == 46);
    assert(first_match_from(x, 6) == 46);
    assert(first_match_from(x, 5) == 46);
    assert(first_match_from(x, 4) == 46);
    assert(first_match_from(x, 3) == 46);
    assert(first_match_from(x, 2) == 46);
    assert(first_match_from(x, 1) == 46);
    assert(first_match_from(x, 0) == 46);
}

proof fn lemma_xid_row_47(x: u32, gmii: bool)
    requires
        (x & 0x7c8 == 0x248) && (x & 0x7cf != 0x249) && (x & 0x7cf != 0x248),
    ensures
        spec_identify(x, gmii).mask == 0x7c8,
        spec_identify(x, gmii).val == 0x248,
        spec_identify(x, gmii).version == (if gmii { MacVersion(9) } else { MacVersion(9) }),
        spec_identify(x, gmii).name == (if gmii { "RTL8102e/RTL8103e" } else { "RTL8102e/RTL8103e" }),
{
    lemma_xid_bits(x);
    assert(row_matches(x, spec_chip_infos()[47]));
    assert(first_match_from(x, 47) == 47);
    assert(first_match_from(x, 46) == 47);
    assert(first_match_from(x, 45) == 47);
    assert(first_match_from(x, 44) == 47);
    assert(first_match_from(x, 43) == 47);
    assert(first_match_from(x, 42) == 47);
    assert(first_match_from(x, 41) == 47);
    assert(first_match_from(x, 40) == 47);
    assert(first_match_from(x, 39) == 47);
    assert(first_match_from(x, 38) == 47);
    assert(first_match_from(x, 37) == 47);
    assert(first_match_from(x, 36) == 47);
    assert(first_match_from(x, 35) == 47);
    assert(first_match_from(x, 34) == 47);
    assert(first_match_from(x, 33) == 47);
    assert(first_match_from(x, 32) == 47);
    assert(first_match_from(x, 31) == 47);
    assert(first_match_from(x, 30) == 47);
    assert(first_match_from(x, 29) == 47);
    assert(first_match_from(x, 28) == 47);
    assert(first_match_from(x, 27) == 47);
    assert(first_match_from(x, 26) == 47);
    assert(first_match_from(x, 25) == 47);
    assert(first_match_from(x, 24) == 47);
    assert(first_match_from(x, 23) == 47);
    assert(first_match_from(x, 22) == 47);
    assert(first_match_from(x, 21) == 47);
    assert(first_match_from(x, 20) == 47);
    assert(first_match_from(x, 19) == 47);
    assert(first_match_from(x, 18) == 47);
    assert(first_match_from(x, 17) == 47);
    assert(first_match_from(x, 16) == 47);
    assert(first_match_from(x, 15) == 47);
    assert(first_match_from(x, 14) == 47);
    assert(first_match_from(x, 13) == 47);
    assert(first_match_from(x, 12) == 47);
    assert(first_match_from(x, 11) == 47);
    assert(first_match_from(x, 10) == 47);
    assert(first_match_from(x, 9) == 47);
    assert(first_match_from(x, 8) == 47);
    assert(first_match_from(x, 7) == 47);
    assert(first_match_from(x, 6) == 47);
    assert(first_match_from(x, 5) == 47);
    assert(first_match_from(x, 4) == 47);
    assert(first_match_from(x, 3) == 47);
    assert(first_match_from(x, 2) == 47);
    assert(first_match_from(x, 1) == 47);
    assert(first_match_from(x, 0) == 47);
}

proof fn lemma_xid_row_48(x: u32, gmii: bool)
    requires
        (x & 0x7c8 == 0x340),
    ensures
        spec_identify(x, gmii).mask == 0x7c8,
        spec_identify(x, gmii).val == 0x340,
        spec_identify(x, gmii).version == (if gmii { MacVersion(10) } else { MacVersion(10) }),
        spec_identify(x, gmii).name == (if gmii { "RTL8101e/RTL8100e" } else { "RTL8101e/RTL8100e" }),
{
    lemma_xid_bits(x);
    assert(row_matches(x, spec_chip_infos()[48]));
    assert(first_match_from(x, 48) == 48);
    assert(first_match_from(x, 47) == 48);
    assert(first_match_from(x, 46) == 48);
    assert(first_match_from(x, 45) == 48);
    assert(first_match_from(x, 44) == 48);
    assert(first_match_from(x, 43) == 48);
    assert(first_match_from(x, 42) == 48);
    assert(first_match_from(x, 41) == 48);
    assert(first_match_from(x, 40) == 48);
    assert(first_match_from(x, 39) == 48);
    assert(first_match_from(x, 38) == 48);
    assert(first_match_from(x, 37) == 48);
    assert(first_match_from(x, 36) == 48);
    assert(first_match_from(x, 35) == 48);
    assert(first_match_from(x, 34) == 48);
    assert(first_match_from(x, 33) == 48);
    assert(first_match_from(x, 32) == 48);
    assert(first_match_from(x, 31) == 48);
    assert(first_match_from(x, 30) == 48);
    assert(first_match_from(x, 29) == 48);
    assert(first_match_from(x, 28) == 48);
    assert(first_match_from(x, 27) == 48);
    assert(first_match_from(x, 26) == 48);
    assert(first_match_from(x, 25) == 48);
    assert(first_match_from(x, 24) == 48);
    assert(first_match_from(x, 23) == 48);
    assert(first_match_from(x, 22) == 48);
    assert(first_match_from(x, 21) == 48);
    assert(first_match_from(x, 20) == 48);
    assert(first_match_from(x, 19) == 48);
    assert(first_match_from(x, 18) == 48);
    assert(first_match_from(x, 17) == 48);
    assert(first_match_from(x, 16) == 48);
    assert(first_match_from(x, 15) == 48);
    assert(first_match_from(x, 14) == 48);
    assert(first_match_from(x, 13) == 48);
    assert(first_match_from(x, 12) == 48);
    assert(first_match_from(x, 11) == 48);
    assert(first_match_from(x, 10) == 48);
    assert(first_match_from(x, 9) == 48);
    assert(first_match_from(x, 8) == 48);
    assert(first_match_from(x, 7) == 48);
    assert(first_match_from(x, 6) == 48);
    assert(first_match_from(x, 5) == 48);
    assert(first_match_from(x, 4) == 48);
    assert(first_match_from(x, 3) == 48);
    assert(first_match_from(x, 2) == 48);
    assert(first_match_from(x, 1) == 48);
    assert(first_match_from(x, 0) == 48);
}

proof fn lemma_xid_row_49(x: u32, gmii: bool)
    requires
        (x & 0xfc8 == 0x980),
    ensures
        spec_identify(x, gmii).mask == 0xfc8,
        spec_identify(x, gmii).val == 0x980,
        spec_identify(x, gmii).version == (if gmii { MacVersion(6) } else { MacVersion(6) }),
        spec_identify(x, gmii).name == (if gmii { "RTL8169sc/8110sc" } else { "RTL8169sc/8110sc" }),
{
    lemma_xid_bits(x);
    assert(row_matches(x, spec_chip_infos()[49]));
    assert(first_match_from(x, 49) == 49);
    assert(first_match_from(x, 48) == 49);
    assert(first_match_from(x, 47) == 49);
    assert(first_match_from(x, 46) == 49);
    assert(first_match_from(x, 45) == 49);
    assert(first_match_from(x, 44) == 49);
    assert(first_match_from(x, 43) == 49);
    assert(first_match_from(x, 42) == 49);
    assert(first_match_from(x, 41) == 49);
    assert(first_match_from(x, 40) == 49);
    assert(first_match_from(x, 39) == 49);
    assert(first_match_from(x, 38) == 49);
    assert(first_match_from(x, 37) == 49);
    assert(first_match_from(x, 36) == 49);
    assert(first_match_from(x, 35) == 49);
    assert(first_match_from(x, 34) == 49);
    assert(first_match_from(x, 33) == 49);
    assert(first_match_from(x, 32) == 49);
    assert(first_match_from(x, 31) == 49);
    assert(first_match_from(x, 30) == 49);
    assert(first_match_from(x, 29) == 49);
    assert(first_match_from(x, 28) == 49);
    assert(first_match_from(x, 27) == 49);
    assert(first_match_from(x, 26) == 49);
    assert(first_match_from(x, 25) == 49);
    assert(first_match_from(x, 24) == 49);
    assert(first_match_from(x, 23) == 49);
    assert(first_match_from(x, 22) == 49);
    assert(first_match_from(x, 21) == 49);
    assert(first_match_from(x, 20) == 49);
    assert(first_match_from(x, 19) == 49);
    assert(first_match_from(x, 18) == 49);
    assert(first_match_from(x, 17) == 49);
    assert(first_match_from(x, 16) == 49);
    assert(first_match_from(x, 15) == 49);
    assert(first_match_from(x, 14) == 49);
    assert(first_match_from(x, 13) == 49);
    assert(first_match_from(x, 12) == 49);
    assert(first_match_from(x, 11) == 49);
    assert(first_match_from(x, 10) == 49);
    assert(first_match_from(x, 9) == 49);
    assert(first_match_from(x, 8) == 49);
    assert(first_match_from(x, 7) == 49);
    assert(first_match_from(x, 6) == 49);
    assert(first_match_from(x, 5) == 49);
    assert(first_match_from(x, 4) == 49);
    assert(first_match_from(x, 3) == 49);
    assert(first_match_from(x, 2) == 49);
    assert(first_match_from(x, 1) == 49);
    assert(first_match_from(x, 0) == 49);
}

proof fn lemma_xid_row_50(x: u32, gmii: bool)
    requires
        (x & 0xfc8 == 0x180),
    ensures
        spec_identify(x, gmii).mask == 0xfc8,
        spec_identify(x, gmii).val == 0x180,
        spec_identify(x, gmii).version == (if gmii { MacVersion(5) } else { MacVersion(5) }),
        spec_identify(x, gmii).name == (if gmii { "RTL8169sc/8110sc" } else { "RTL8169sc/8110sc" }),
{
    lemma_xid_bits(x);
    assert(row_matches(x, spec_chip_infos()[50]));
    assert(first_match_from(x, 50) == 50);
    assert(first_match_from(x, 49) == 50);
    assert(first_match_from(x, 48) == 50);
    assert(first_match_from(x, 47) == 50);
    assert(first_match_from(x, 46) == 50);
    assert(first_match_from(x, 45) == 50);
    assert(first_match_from(x, 44) == 50);
    assert(first_match_from(x, 43) == 50);
    assert(first_match_from(x, 42) == 50);
    assert(first_match_from(x, 41) == 50);
    assert(first_match_from(x, 40) == 50);
    assert(first_match_from(x, 39) == 50);
    assert(first_match_from(x, 38) == 50);
    assert(first_match_from(x, 37) == 50);
    assert(first_match_from(x, 36) == 50);
    assert(first_match_from(x, 35) == 50);
    assert(first_match_from(x, 34) == 50);
    assert(first_match_from(x, 33) == 50);
    assert(first_match_from(x, 32) == 50);
    assert(first_match_from(x, 31) == 50);
    assert(first_match_from(x, 30) == 50);
    assert(first_match_from(x, 29) == 50);
    assert(first_match_from(x, 28) == 50);
    assert(first_match_from(x, 27) == 50);
    assert(first_match_from(x, 26) == 50);
    assert(first_match_from(x, 25) == 50);
    assert(first_match_from(x, 24) == 50);
    assert(first_match_from(x, 23) == 50);
    assert(first_match_from(x, 22) == 50);
    assert(first_match_from(x, 21) == 50);
    assert(first_match_from(x, 20) == 50);
    assert(first_match_from(x, 19) == 50);
    assert(first_match_from(x, 18) == 50);
    assert(first_match_from(x, 17) == 50);
    assert(first_match_from(x, 16) == 50);
    assert(first_match_from(x, 15) == 50);
    assert(first_match_from(x, 14) == 50);
    assert(first_match_from(x, 13) == 50);
    assert(first_match_from(x, 12) == 50);
    assert(first_match_from(x, 11) == 50);
    assert(first_match_from(x, 10) == 50);
    assert(first_match_from(x, 9) == 50);
    assert(first_match_from(x, 8) == 50);
    assert(first_match_from(x, 7) == 50);
    assert(first_match_from(x, 6) == 50);
    assert(first_match_from(x, 5) == 50);
    assert(first_match_from(x, 4) == 50);
    assert(first_match_from(x, 3) == 50);
    assert(first_match_from(x, 2) == 50);
    assert(first_match_from(x, 1) == 50);
    assert(first_match_from(x, 0) == 50);
}

proof fn lemma_xid_row_51(x: u32, gmii: bool)
    requires
        (x & 0xfc8 == 0x100),
    ensures
        spec_identify(x, gmii).mask == 0xfc8,
        spec_identify(x, gmii).val == 0x100,
        spec_identify(x, gmii).version == (if gmii { MacVersion(4) } else { MacVersion(4) }),
        spec_identify(x, gmii).name == (if gmii { "RTL8169sb/8110sb" } else { "RTL8169sb/8110sb" }),
{
    lemma_xid_bits(x);
    assert(row_matches(x, spec_chip_infos()[51]));
    assert(first_match_from(x, 51) == 51);
    assert(first_match_from(x, 50) == 51);
    assert(first_match_from(x, 49) == 51);
    assert(first_match_from(x, 48) == 51);
    assert(first_match_from(x, 47) == 51);
    assert(first_match_from(x, 46) == 51);
    assert(first_match_from(x, 45) == 51);
    assert(first_match_from(x, 44) == 51);
    assert(first_match_from(x, 43) == 51);
    assert(first_match_from(x, 42) == 51);
    assert(first_match_from(x, 41) == 51);
    assert(first_match_from(x, 40) == 51);
    assert(first_match_from(x, 39) == 51);
    assert(first_match_from(x, 38) == 51);
    assert(first_match_from(x, 37) == 51);
    assert(first_match_from(x, 36) == 51);
    assert(first_match_from(x, 35) == 51);
    assert(first_match_from(x, 34) == 51);
    assert(first_match_from(x, 33) == 51);
    assert(first_match_from(x, 32) == 51);
    assert(first_match_from(x, 31) == 51);
    assert(first_match_from(x, 30) == 51);
    assert(first_match_from(x, 29) == 51);
    assert(first_match_from(x, 28) == 51);
    assert(first_match_from(x, 27) == 51);
    assert(first_match_from(x, 26) == 51);
    assert(first_match_from(x, 25) == 51);
    assert(first_match_from(x, 24) == 51);
    assert(first_match_from(x, 23) == 51);
    assert(first_match_from(x, 22) == 51);
    assert(first_match_from(x, 21) == 51);
    assert(first_match_from(x, 20) == 51);
    assert(first_match_from(x, 19) == 51);
    assert(first_match_from(x, 18) == 51);
    assert(first_match_from(x, 17) == 51);
    assert(first_match_from(x, 16) == 51);
    assert(first_match_from(x, 15) == 51);
    assert(first_match_from(x, 14) == 51);
    assert(first_match_from(x, 13) == 51);
    assert(first_match_from(x, 12) == 51);
    assert(first_match_from(x, 11) == 51);
    assert(first_match_from(x, 10) == 51);
    assert(first_match_from(x, 9) == 51);
    assert(first_match_from(x, 8) == 51);
    assert(first_match_from(x, 7) == 51);
    assert(first_match_from(x, 6) == 51);
    assert(first_match_from(x, 5) == 51);
    assert(first_match_from(x, 4) == 51);
    assert(first_match_from(x, 3) == 51);
    assert(first_match_from(x, 2) == 51);
    assert(first_match_from(x, 1) == 51);
    assert(first_match_from(x, 0) == 51);
}

proof fn lemma_xid_row_52(x: u32, gmii: bool)
    requires
        (x & 0xfc8 == 0x40),
    ensures
        spec_identify(x, gmii).mask == 0xfc8,
        spec_identify(x, gmii).val == 0x40,
        spec_identify(x, gmii).version == (if gmii { MacVersion(3) } else { MacVersion(3) }),
        spec_identify(x, gmii).name == (if gmii { "RTL8110s" } else { "RTL8110s" }),
{
    lemma_xid_bits(x);
    assert(row_matches(x, spec_chip_infos()[52]));
    assert(first_match_from(x, 52) == 52);
    assert(first_match_from(x, 51) == 52);
    assert(first_match_from(x, 50) == 52);
    assert(first_match_from(x, 49) == 52);
    assert(first_match_from(x, 48) == 52);
    assert(first_match_from(x, 47) == 52);
    assert(first_match_from(x, 46) == 52);
    assert(first_match_from(x, 45) == 52);
    assert(first_match_from(x, 44) == 52);
    assert(first_match_from(x, 43) == 52);
    assert(first_match_from(x, 42) == 52);
    assert(first_match_from(x, 41) == 52);
    assert(first_match_from(x, 40) == 52);
    assert(first_match_from(x, 39) == 52);
    assert(first_match_from(x, 38) == 52);
    assert(first_match_from(x, 37) == 52);
    assert(first_match_from(x, 36) == 52);
    assert(first_match_from(x, 35) == 52);
    assert(first_match_from(x, 34) == 52);
    assert(first_match_from(x, 33) == 52);
    assert(first_match_from(x, 32) == 52);
    assert(first_match_from(x, 31) == 52);
    assert(first_match_from(x, 30) == 52);
    assert(first_match_from(x, 29) == 52);
    assert(first_match_from(x, 28) == 52);
    assert(first_match_from(x, 27) == 52);
    assert(first_match_from(x, 26) == 52);
    assert(first_match_from(x, 25) == 52);
    assert(first_match_from(x, 24) == 52);
    assert(first_match_from(x, 23) == 52);
    assert(first_match_from(x, 22) == 52);
    assert(first_match_from(x, 21) == 52);
    assert(first_match_from(x, 20) == 52);
    assert(first_match_from(x, 19) == 52);
    assert(first_match_from(x, 18) == 52);
    assert(first_match_from(x, 17) == 52);
    assert(first_match_from(x, 16) == 52);
    assert(first_match_from(x, 15) == 52);
    assert(first_match_from(x, 14) == 52);
    assert(first_match_from(x, 13) == 52);
    assert(first_match_from(x, 12) == 52);
    assert(first_match_from(x, 11) == 52);
    assert(first_match_from(x, 10) == 52);
    assert(first_match_from(x, 9) == 52);
    assert(first_match_from(x, 8) == 52);
    assert(first_match_from(x, 7) == 52);
    assert(first_match_from(x, 6) == 52);
    assert(first_match_from(x, 5) == 52);
    assert(first_match_from(x, 4) == 52);
    assert(first_match_from(x, 3) == 52);
    assert(first_match_from(x, 2) == 52);
    assert(first_match_from(x, 1) == 52);
    assert(first_match_from(x, 0) == 52);
}

proof fn lemma_xid_row_53(x: u32, gmii: bool)
    requires
        (x & 0xfc8 == 0x8),
    ensures
        spec_identify(x, gmii).mask == 0xfc8,
        spec_identify(x, gmii).val == 0x8,
        spec_identify(x, gmii).version == (if gmii { MacVersion(2) } else { MacVersion(2) }),
        spec_identify(x, gmii).name == (if gmii { "RTL8169s" } else { "RTL8169s" }),
{
    lemma_xid_bits(x);
    assert(row_matches(x, spec_chip_infos()[53]));
    assert(first_match_from(x, 53) == 53);
    assert(first_match_from(x, 52) == 53);
    assert(first_match_from(x, 51) == 53);
    assert(first_match_from(x, 50) == 53);
    assert(first_match_from(x, 49) == 53);
    assert(first_match_from(x, 48) == 53);
    assert(first_match_from(x, 47) == 53);
    assert(first_match_from(x, 46) == 53);
    assert(first_match_from(x, 45) == 53);
    assert(first_match_from(x, 44) == 53);
    assert(first_match_from(x, 43) == 53);
    assert(first_match_from(x, 42) == 53);
    assert(first_match_from(x, 41) == 53);
    assert(first_match_from(x, 40) == 53);
    assert(first_match_from(x, 39) == 53);
    assert(first_match_from(x, 38) == 53);
    assert(first_match_from(x, 37) == 53);
    assert(first_match_from(x, 36) == 53);
    assert(first_match_from(x, 35) == 53);
    assert(first_match_from(x, 34) == 53);
    assert(first_match_from(x, 33) == 53);
    assert(first_match_from(x, 32) == 53);
    assert(first_match_from(x, 31) == 53);
    assert(first_match_from(x, 30) == 53);
    assert(first_match_from(x, 29) == 53);
    assert(first_match_from(x, 28) == 53);
    assert(first_match_from(x, 27) == 53);
    assert(first_match_from(x, 26) == 53);
    assert(first_match_from(x, 25) == 53);
    assert(first_match_from(x, 24) == 53);
    assert(first_match_from(x, 23) == 53);
    assert(first_match_from(x, 22) == 53);
    assert(first_match_from(x, 21) == 53);
    assert(first_match_from(x, 20) == 53);
    assert(first_match_from(x, 19) == 53);
    assert(first_match_from(x, 18) == 53);
    assert(first_match_from(x, 17) == 53);
    assert(first_match_from(x, 16) == 53);
    assert(first_match_from(x, 15) == 53);
    assert(first_match_from(x, 14) == 53);
    assert(first_match_from(x, 13) == 53);
    assert(first_match_from(x, 12) == 53);
    assert(first_match_from(x, 11) == 53);
    assert(first_match_from(x, 10) == 53);
    assert(first_match_from(x, 9) == 53);
    assert(first_match_from(x, 8) == 53);
    assert(first_match_from(x, 7) == 53);
    assert(first_match_from(x, 6) == 53);
    assert(first_match_from(x, 5) == 53);
    assert(first_match_from(x, 4) == 53);
    assert(first_match_from(x, 3) == 53);
    assert(first_match_from(x, 2) == 53);
    assert(first_match_from(x, 1) == 53);
    assert(first_match_from(x, 0) == 53);
}

proof fn lemma_xid_row_54(x: u32, gmii: bool)
    requires
        (x & 0x7cf == 0x7c8),
    ensures
        spec_identify(x, gmii).mask == 0x7cf,
        spec_identify(x, gmii).val == 0x7c8,
        spec_identify(x, gmii).version == (if gmii { MacVersion(255) } else { MacVersion(255) }),
        spec_identify(x, gmii).name == (if gmii { "(unnamed)" } else { "(unnamed)" }),
{
    lemma_xid_bits(x);
    assert(row_matches(x, spec_chip_infos()[54]));
    assert(first_match_from(x, 54) == 54);
    assert(first_match_from(x, 53) == 54);
    assert(first_match_from(x, 52) == 54);
    assert(first_match_from(x, 51) == 54);
    assert(first_match_from(x, 50) == 54);
    assert(first_match_from(x, 49) == 54);
    assert(first_match_from(x, 48) == 54);
    assert(first_match_from(x, 47) == 54);
    assert(first_match_from(x, 46) == 54);
    assert(first_match_from(x, 45) == 54);
    assert(first_match_from(x, 44) == 54);
    assert(first_match_from(x, 43) == 54);
    assert(first_match_from(x, 42) == 54);
    assert(first_match_from(x, 41) == 54);
    assert(first_match_from(x, 40) == 54);
    assert(first_match_from(x, 39) == 54);
    assert(first_match_from(x, 38) == 54);
    assert(first_match_from(x, 37) == 54);
    assert(first_match_from(x, 36) == 54);
    assert(first_match_from(x, 35) == 54);
    assert(first_match_from(x, 34) == 54);
    assert(first_match_from(x, 33) == 54);
    assert(first_match_from(x, 32) == 54);
    assert(first_match_from(x, 31) == 54);
    assert(first_match_from(x, 30) == 54);
    assert(first_match_from(x, 29) == 54);
    assert(first_match_from(x, 28) == 54);
    assert(first_match_from(x, 27) == 54);
    assert(first_match_from(x, 26) == 54);
    assert(first_match_from(x, 25) == 54);
    assert(first_match_from(x, 24) == 54);
    assert(first_match_from(x, 23) == 54);
    assert(first_match_from(x, 22) == 54);
    assert(first_match_from(x, 21) == 54);
    assert(first_match_from(x, 20) == 54);
    assert(first_match_from(x, 19) == 54);
    assert(first_match_from(x, 18) == 54);
    assert(first_match_from(x, 17) == 54);
    assert(first_match_from(x, 16) == 54);
    assert(first_match_from(x, 15) == 54);
    assert(first_match_from(x, 14) == 54);
    assert(first_match_from(x, 13) == 54);
    assert(first_match_from(x, 12) == 54);
    assert(first_match_from(x, 11) == 54);
    assert(first_match_from(x, 10) == 54);
    assert(first_match_from(x, 9) == 54);
    assert(first_match_from(x, 8) == 54);
    assert(first_match_from(x, 7) == 54);
    assert(first_match_from(x, 6) == 54);
    assert(first_match_from(x, 5) == 54);
    assert(first_match_from(x, 4) == 54);
    assert(first_match_from(x, 3) == 54);
    assert(first_match_from(x, 2) == 54);
    assert(first_match_from(x, 1) == 54);
    assert(first_match_from(x, 0) == 54);
}

proof fn lemma_xid_row_55(x: u32, gmii: bool)
    requires
        (x & 0x7cf != 0x6c9) && (x & 0x7cf != 0x64a) && (x & 0x7cf != 0x649) && (x & 0x7cf != 0x681) && (x & 0x7cf != 0x68b) && (x & 0x7cf != 0x68a) && (x & 0x7cf != 0x689) && (x & 0x7cf != 0x688) && (x & 0x7cf != 0x641) && (x & 0x7cf != 0x609) && (x & 0x7cf != 0x54b) && (x & 0x7cf != 0x54a) && (x & 0x7cf != 0x502) && (x & 0x7cf != 0x541) && (x & 0x7cf != 0x6c0) && (x & 0x7cf != 0x5c8) && (x & 0x7cf != 0x509) && (x & 0x7cf != 0x4c0) && (x & 0x7cf != 0x481) && (x & 0x7cf != 0x480) && (x & 0x7cf != 0x2c1) && (x & 0x7cf != 0x281) && (x & 0x7cf != 0x28a) && (x & 0x7cf != 0x28b) && (x & 0x7cf != 0x3c9) && (x & 0x7cf != 0x3c8) && (x & 0x7cf != 0x3c0) && (x & 0x7cf != 0x3c2) && (x & 0x7cf != 0x3c3) && (x & 0x7cf != 0x409) && (x & 0x7cf != 0x349) && (x & 0x7cf != 0x249) && (x & 0x7cf != 0x348) && (x & 0x7cf != 0x248) && (x & 0x7cf != 0x240) && (x & 0x7cf != 0x7c8) && (x & 0x7c8 != 0x488) && (x & 0x7c8 != 0x2c8) && (x & 0x7c8 != 0x2c0) && (x & 0x7c8 != 0x280) && (x & 0x7c8 != 0x3c8) && (x & 0x7c8 != 0x3c0) && (x & 0x7c8 != 0x380) && (x & 0x7c8 != 0x300) && (x & 0x7c8 != 0x448) && (x & 0x7c8 != 0x440) && (x & 0x7c8 != 0x408) && (x & 0x7c8 != 0x348) && (x & 0x7c8 != 0x248) && (x & 0x7c8 != 0x340) && (x & 0xfc8 != 0x980) && (x & 0xfc8 != 0x180) && (x & 0xfc8 != 0x100) && (x & 0xfc8 != 0x40) && (x & 0xfc8 != 0x8),
    ensures
        spec_identify(x, gmii).mask == 0x0,
        spec_identify(x, gmii).val == 0x0,
        spec_identify(x, gmii).version == (if gmii { MacVersion(0) } else { MacVersion(0) }),
        spec_identify(x, gmii).name == (if gmii { "(unnamed)" } else { "(unnamed)" }),
{
    lemma_xid_bits(x);
    assert(row_matches(x, spec_chip_infos()[55]));
    assert(first_match_from(x, 55) == 55);
    assert(first_match_from(x, 54) == 55);
    assert(first_match_from(x, 53) == 55);
    assert(first_match_from(x, 52) == 55);
    assert(first_match_from(x, 51) == 55);
    assert(first_match_from(x, 50) == 55);
    assert(first_match_from(x, 49) == 55);
    assert(first_match_from(x, 48) == 55);
    assert(first_match_from(x, 47) == 55);
    assert(first_match_from(x, 46) == 55);
    assert(first_match_from(x, 45) == 55);
    assert(first_match_from(x, 44) == 55);
    assert(first_match_from(x, 43) == 55);
    assert(first_match_from(x, 42) == 55);
    assert(first_match_from(x, 41) == 55);
    assert(first_match_from(x, 40) == 55);
    assert(first_match_from(x, 39) == 55);
    assert(first_match_from(x, 38) == 55);
    assert(first_match_from(x, 37) == 55);
    assert(first_match_from(x, 36) == 55);
    assert(first_match_from(x, 35) == 55);
    assert(first_match_from(x, 34) == 55);
    assert(first_match_from(x, 33) == 55);
    assert(first_match_from(x, 32) == 55);
    assert(first_match_from(x, 31) == 55);
    assert(first_match_from(x, 30) == 55);
    assert(first_match_from(x, 29) == 55);
    assert(first_match_from(x, 28) == 55);
    assert(first_match_from(x, 27) == 55);
    assert(first_match_from(x, 26) == 55);
    assert(first_match_from(x, 25) == 55);
    assert(first_match_from(x, 24) == 55);
    assert(first_match_from(x, 23) == 55);
    assert(first_match_from(x, 22) == 55);
    assert(first_match_from(x, 21) == 55);
    assert(first_match_from(x, 20) == 55);
    assert(first_match_from(x, 19) == 55);
    assert(first_match_from(x, 18) == 55);
    assert(first_match_from(x, 17) == 55);
    assert(first_match_from(x, 16) == 55);
    assert(first_match_from(x, 15) == 55);
    assert(first_match_from(x, 14) == 55);
    assert(first_match_from(x, 13) == 55);
    assert(first_match_from(x, 12) == 55);
    assert(first_match_from(x, 11) == 55);
    assert(first_match_from(x, 10) == 55);
    assert(first_match_from(x, 9) == 55);
    assert(first_match_from(x, 8) == 55);
    assert(first_match_from(x, 7) == 55);
    assert(first_match_from(x, 6) == 55);
    assert(first_match_from(x, 5) == 55);
    assert(first_match_from(x, 4) == 55);
    assert(first_match_from(x, 3) == 55);
    assert(first_match_from(x, 2) == 55);
    assert(first_match_from(x, 1) == 55);
    assert(first_match_from(x, 0) == 55);
}

/// Every XID identifies as the part its class names: for each class of XIDs the table tells
/// apart (by `xid & 0x7cf`, `xid & 0x7c8` or `xid & 0xfc8`, less the values an earlier row
/// claims), the identification carries that row's mask, value, MAC version and name, where a
/// gigabit part without gmii is redirected (version 42 to 43, RTL8106eus; version 46 to 48,
/// RTL8107e). For example every XID with `xid & 0x7cf == 0x641` is an RTL8125B, version 63.
pub proof fn lemma_identify_classes(x: u32, gmii: bool)
    ensures
        ((x & 0x7cf == 0x6c9)) ==> spec_identify(x, gmii).mask == 0x7cf && spec_identify(x, gmii).val == 0x6c9
            && spec_identify(x, gmii).version == (if gmii { MacVersion(80) } else { MacVersion(80) })
            && spec_identify(x, gmii).name == (if gmii { "RTL8127A" } else { "RTL8127A" }),
        ((x & 0x7cf == 0x64a)) ==> spec_identify(x, gmii).mask == 0x7cf && spec_identify(x, gmii).val == 0x64a
            && spec_identify(x, gmii).version == (if gmii { MacVersion(70) } else { MacVersion(70) })
            && spec_identify(x, gmii).name == (if gmii { "RTL8126A" } else { "RTL8126A" }),
        ((x & 0x7cf == 0x649)) ==> spec_identify(x, gmii).mask == 0x7cf && spec_identify(x, gmii).val == 0x649
            && spec_identify(x, gmii).version == (if gmii { MacVersion(70) } else { MacVersion(70) })
            && spec_identify(x, gmii).name == (if gmii { "RTL8126A" } else { "RTL8126A" }),
        ((x & 0x7cf == 0x681)) ==> spec_identify(x, gmii).mask == 0x7cf && spec_identify(x, gmii).val == 0x681
            && spec_identify(x, gmii).version == (if gmii { MacVersion(66) } else { MacVersion(66) })
            && spec_identify(x, gmii).name == (if gmii { "RTL8125BP" } else { "RTL8125BP" }),
        ((x & 0x7cf == 0x68b)) ==> spec_identify(x, gmii).mask == 0x7cf && spec_identify(x, gmii).val == 0x68b
            && spec_identify(x, gmii).version == (if gmii { MacVersion(64) } else { MacVersion(64) })
            && spec_identify(x, gmii).name == (if gmii { "RTL9151A" } else { "RTL9151A" }),
        ((x & 0x7cf == 0x68a)) ==> spec_identify(x, gmii).mask == 0x7cf && spec_identify(x, gmii).val == 0x68a
            && spec_identify(x, gmii).version == (if gmii { MacVersion(64) } else { MacVersion(64) })
            && spec_identify(x, gmii).name == (if gmii { "RTL8125K" } else { "RTL8125K" }),
        ((x & 0x7cf == 0x689)) ==> spec_identify(x, gmii).mask == 0x7cf && spec_identify(x, gmii).val == 0x689
            && spec_identify(x, gmii).version == (if gmii { MacVersion(64) } else { MacVersion(64) })
            && spec_identify(x, gmii).name == (if gmii { "RTL8125D" } else { "RTL8125D" }),
        ((x & 0x7cf == 0x688)) ==> spec_identify(x, gmii).mask == 0x7cf && spec_identify(x, gmii).val == 0x688
            && spec_identify(x, gmii).version == (if gmii { MacVersion(64) } else { MacVersion(64) })
            && spec_identify(x, gmii).name == (if gmii { "RTL8125D" } else { "RTL8125D" }),
        ((x & 0x7cf == 0x641)) ==> spec_identify(x, gmii).mask == 0x7cf && spec_identify(x, gmii).val == 0x641
            && spec_identify(x, gmii).version == (if gmii { MacVersion(63) } else { MacVersion(63) })
            && spec_identify(x, gmii).name == (if gmii { "RTL8125B" } else { "RTL8125B" }),
        ((x & 0x7cf == 0x609)) ==> spec_identify(x, gmii).mask == 0x7cf && spec_identify(x, gmii).val == 0x609
            && spec_identify(x, gmii).version == (if gmii { MacVersion(61) } else { MacVersion(61) })
            && spec_identify(x, gmii).name == (if gmii { "RTL8125A" } else { "RTL8125A" }),
        ((x & 0x7cf == 0x54b)) ==> spec_identify(x, gmii).mask == 0x7cf && spec_identify(x, gmii).val == 0x54b
            && spec_identify(x, gmii).version == (if gmii { MacVersion(52) } else { MacVersion(52) })
            && spec_identify(x, gmii).name == (if gmii { "RTL8168fp/RTL8117" } else { "RTL8168fp/RTL8117" }),
        ((x & 0x7cf == 0x54a)) ==> spec_identify(x, gmii).mask == 0x7cf && spec_identify(x, gmii).val == 0x54a
            && spec_identify(x, gmii).version == (if gmii { MacVersion(52) } else { MacVersion(52) })
            && spec_identify(x, gmii).name == (if gmii { "RTL8168fp/RTL8117" } else { "RTL8168fp/RTL8117" }),
        ((x & 0x7cf == 0x502)) ==> spec_identify(x, gmii).mask == 0x7cf && spec_identify(x, gmii).val == 0x502
            && spec_identify(x, gmii).version == (if gmii { MacVersion(51) } else { MacVersion(51) })
            && spec_identify(x, gmii).name == (if gmii { "RTL8168ep/8111ep" } else { "RTL8168ep/8111ep" }),
        ((x & 0x7cf == 0x541)) ==> spec_identify(x, gmii).mask == 0x7cf && spec_identify(x, gmii).val == 0x541
            && spec_identify(x, gmii).version == (if gmii { MacVersion(46) } else { MacVersion(48) })
            && spec_identify(x, gmii).name == (if gmii { "RTL8168h/8111h" } else { "RTL8107e" }),
        ((x & 0x7cf == 0x6c0)) ==> spec_identify(x, gmii).mask == 0x7cf && spec_identify(x, gmii).val == 0x6c0
            && spec_identify(x, gmii).version == (if gmii { MacVersion(46) } else { MacVersion(48) })
            && spec_identify(x, gmii).name == (if gmii { "RTL8168M" } else { "RTL8107e" }),
        ((x & 0x7cf == 0x5c8)) ==> spec_identify(x, gmii).mask == 0x7cf && spec_identify(x, gmii).val == 0x5c8
            && spec_identify(x, gmii).version == (if gmii { MacVersion(44) } else { MacVersion(44) })
            && spec_identify(x, gmii).name == (if gmii { "RTL8411b" } else { "RTL8411b" }),
        ((x & 0x7cf == 0x509)) ==> spec_identify(x, gmii).mask == 0x7cf && spec_identify(x, gmii).val == 0x509
            && spec_identify(x, gmii).version == (if gmii { MacVersion(42) } else { MacVersion(43) })
            && spec_identify(x, gmii).name == (if gmii { "RTL8168gu/8111gu" } else { "RTL8106eus" }),
        ((x & 0x7cf == 0x4c0)) ==> spec_identify(x, gmii).mask == 0x7cf && spec_identify(x, gmii).val == 0x4c0
            && spec_identify(x, gmii).version == (if gmii { MacVersion(40) } else { MacVersion(40) })
            && spec_identify(x, gmii).name == (if gmii { "RTL8168g/8111g" } else { "RTL8168g/8111g" }),
        ((x & 0x7c8 == 0x488)) ==> spec_identify(x, gmii).mask == 0x7c8 && spec_identify(x, gmii).val == 0x488
            && spec_identify(x, gmii).version == (if gmii { MacVersion(38) } else { MacVersion(38) })
            && spec_identify(x, gmii).name == (if gmii { "RTL8411" } else { "RTL8411" }),
        ((x & 0x7cf == 0x481)) ==> spec_identify(x, gmii).mask == 0x7cf && spec_identify(x, gmii).val == 0x481
            && spec_identify(x, gmii).version == (if gmii { MacVersion(36) } else { MacVersion(36) })
            && spec_identify(x, gmii).name == (if gmii { "RTL8168f/8111f" } else { "RTL8168f/8111f" }),
        ((x & 0x7cf == 0x480)) ==> spec_identify(x, gmii).mask == 0x7cf && spec_identify(x, gmii).val == 0x480
            && spec_identify(x, gmii).version == (if gmii { MacVersion(35) } else { MacVersion(35) })
            && spec_identify(x, gmii).name == (if gmii { "RTL8168f/8111f" } else { "RTL8168f/8111f" }),
        ((x & 0x7c8 == 0x2c8)) ==> spec_identify(x, gmii).mask == 0x7c8 && spec_identify(x, gmii).val == 0x2c8
            && spec_identify(x, gmii).version == (if gmii { MacVersion(34) } else { MacVersion(34) })
            && spec_identify(x, gmii).name == (if gmii { "RTL8168evl/8111evl" } else { "RTL8168evl/8111evl" }),
        ((x & 0x7cf == 0x2c1)) ==> spec_identify(x, gmii).mask == 0x7cf && spec_identify(x, gmii).val == 0x2c1
            && spec_identify(x, gmii).version == (if gmii { MacVersion(32) } else { MacVersion(32) })
            && spec_identify(x, gmii).name == (if gmii { "RTL8168e/8111e" } else { "RTL8168e/8111e" }),
        ((x & 0x7c8 == 0x2c0) && (x & 0x7cf != 0x2c1)) ==> spec_identify(x, gmii).mask == 0x7c8 && spec_identify(x, gmii).val == 0x2c0
            && spec_identify(x, gmii).version == (if gmii { MacVersion(33) } else { MacVersion(33) })
            && spec_identify(x, gmii).name == (if gmii { "RTL8168e/8111e" } else { "RTL8168e/8111e" }),
        ((x & 0x7cf == 0x281)) ==> spec_identify(x, gmii).mask == 0x7cf && spec_identify(x, gmii).val == 0x281
            && spec_identify(x, gmii).version == (if gmii { MacVersion(25) } else { MacVersion(25) })
            && spec_identify(x, gmii).name == (if gmii { "RTL8168d/8111d" } else { "RTL8168d/8111d" }),
        ((x & 0x7c8 == 0x280) && (x & 0x7cf != 0x281)) ==> spec_identify(x, gmii).mask == 0x7c8 && spec_identify(x, gmii).val == 0x280
            && spec_identify(x, gmii).version == (if gmii { MacVersion(26) } else { MacVersion(26) })
            && spec_identify(x, gmii).name == (if gmii { "RTL8168d/8111d" } else { "RTL8168d/8111d" }),
        ((x & 0x7cf == 0x28a)) ==> spec_identify(x, gmii).mask == 0x7cf && spec_identify(x, gmii).val == 0x28a
            && spec_identify(x, gmii).version == (if gmii { MacVersion(28) } else { MacVersion(28) })
            && spec_identify(x, gmii).name == (if gmii { "RTL8168dp/8111dp" } else { "RTL8168dp/8111dp" }),
        ((x & 0x7cf == 0x28b)) ==> spec_identify(x, gmii).mask == 0x7cf && spec_identify(x, gmii).val == 0x28b
            && spec_identify(x, gmii).version == (if gmii { MacVersion(31) } else { MacVersion(31) })
            && spec_identify(x, gmii).name == (if gmii { "RTL8168dp/8111dp" } else { "RTL8168dp/8111dp" }),
        ((x & 0x7cf == 0x3c9)) ==> spec_identify(x, gmii).mask == 0x7cf && spec_identify(x, gmii).val == 0x3c9
            && spec_identify(x, gmii).version == (if gmii { MacVersion(23) } else { MacVersion(23) })
            && spec_identify(x, gmii).name == (if gmii { "RTL8168cp/8111cp" } else { "RTL8168cp/8111cp" }),
        ((x & 0x7cf == 0x3c8)) ==> spec_identify(x, gmii).mask == 0x7cf && spec_identify(x, gmii).val == 0x3c8
            && spec_identify(x, gmii).version == (if gmii { MacVersion(18) } else { MacVersion(18) })
            && spec_identify(x, gmii).name == (if gmii { "RTL8168cp/8111cp" } else { "RTL8168cp/8111cp" }),
        ((x & 0x7c8 == 0x3c8) && (x & 0x7cf != 0x3c9) && (x & 0x7cf != 0x3c8)) ==> spec_identify(x, gmii).mask == 0x7c8 && spec_identify(x, gmii).val == 0x3c8
            && spec_identify(x, gmii).version == (if gmii { MacVersion(24) } else { MacVersion(24) })
            && spec_identify(x, gmii).name == (if gmii { "RTL8168cp/8111cp" } else { "RTL8168cp/8111cp" }),
        ((x & 0x7cf == 0x3c0)) ==> spec_identify(x, gmii).mask == 0x7cf && spec_identify(x, gmii).val == 0x3c0
            && spec_identify(x, gmii).version == (if gmii { MacVersion(19) } else { MacVersion(19) })
            && spec_identify(x, gmii).name == (if gmii { "RTL8168c/8111c" } else { "RTL8168c/8111c" }),
        ((x & 0x7cf == 0x3c2)) ==> spec_identify(x, gmii).mask == 0x7cf && spec_identify(x, gmii).val == 0x3c2
            && spec_identify(x, gmii).version == (if gmii { MacVersion(20) } else { MacVersion(20) })
            && spec_identify(x, gmii).name == (if gmii { "RTL8168c/8111c" } else { "RTL8168c/8111c" }),
        ((x & 0x7cf == 0x3c3)) ==> spec_identify(x, gmii).mask == 0x7cf && spec_identify(x, gmii).val == 0x3c3
            && spec_identify(x, gmii).version == (if gmii { MacVersion(21) } else { MacVersion(21) })
            && spec_identify(x, gmii).name == (if gmii { "RTL8168c/8111c" } else { "RTL8168c/8111c" }),
        ((x & 0x7c8 == 0x3c0) && (x & 0x7cf != 0x3c0) && (x & 0x7cf != 0x3c2) && (x & 0x7cf != 0x3c3)) ==> spec_identify(x, gmii).mask == 0x7c8 && spec_identify(x, gmii).val == 0x3c0
            && spec_identify(x, gmii).version == (if gmii { MacVersion(22) } else { MacVersion(22) })
            && spec_identify(x, gmii).name == (if gmii { "RTL8168c/8111c" } else { "RTL8168c/8111c" }),
        ((x & 0x7c8 == 0x380)) ==> spec_identify(x, gmii).mask == 0x7c8 && spec_identify(x, gmii).val == 0x380
            && spec_identify(x, gmii).version == (if gmii { MacVersion(17) } else { MacVersion(17) })
            && spec_identify(x, gmii).name == (if gmii { "RTL8168b/8111b" } else { "RTL8168b/8111b" }),
        ((x & 0x7c8 == 0x300)) ==> spec_identify(x, gmii).mask == 0x7c8 && spec_identify(x, gmii).val == 0x300
            && spec_identify(x, gmii).version == (if gmii { MacVersion(11) } else { MacVersion(11) })
            && spec_identify(x, gmii).name == (if gmii { "RTL8168b/8111b" } else { "RTL8168b/8111b" }),
        ((x & 0x7c8 == 0x448)) ==> spec_identify(x, gmii).mask == 0x7c8 && spec_identify(x, gmii).val == 0x448
            && spec_identify(x, gmii).version == (if gmii { MacVersion(39) } else { MacVersion(39) })
            && spec_identify(x, gmii).name == (if gmii { "RTL8106e" } else { "RTL8106e" }),
        ((x & 0x7c8 == 0x440)) ==> spec_identify(x, gmii).mask == 0x7c8 && spec_identify(x, gmii).val == 0x440
            && spec_identify(x, gmii).version == (if gmii { MacVersion(37) } else { MacVersion(37) })
            && spec_identify(x, gmii).name == (if gmii { "RTL8402" } else { "RTL8402" }),
        ((x & 0x7cf == 0x409)) ==> spec_identify(x, gmii).mask == 0x7cf && spec_identify(x, gmii).val == 0x409
            && spec_identify(x, gmii).version == (if gmii { MacVersion(29) } else { MacVersion(29) })
            && spec_identify(x, gmii).name == (if gmii { "RTL8105e" } else { "RTL8105e" }),
        ((x & 0x7c8 == 0x408) && (x & 0x7cf != 0x409)) ==> spec_identify(x, gmii).mask == 0x7c8 && spec_identify(x, gmii).val == 0x408
            && spec_identify(x, gmii).version == (if gmii { MacVersion(30) } else { MacVersion(30) })
            && spec_identify(x, gmii).name == (if gmii { "RTL8105e" } else { "RTL8105e" }),
        ((x & 0x7cf == 0x349)) ==> spec_identify(x, gmii).mask == 0x7cf && spec_identify(x, gmii).val == 0x349
            && spec_identify(x, gmii).version == (if gmii { MacVersion(8) } else { MacVersion(8) })
            && spec_identify(x, gmii).name == (if gmii { "RTL8102e" } else { "RTL8102e" }),
        ((x & 0x7cf == 0x249)) ==> spec_identify(x, gmii).mask == 0x7cf && spec_identify(x, gmii).val == 0x249
            && spec_identify(x, gmii).version == (if gmii { MacVersion(8) } else { MacVersion(8) })
            && spec_identify(x, gmii).name == (if gmii { "RTL8102e" } else { "RTL8102e" }),
        ((x & 0x7cf == 0x348)) ==> spec_identify(x, gmii).mask == 0x7cf && spec_identify(x, gmii).val == 0x348
            && spec_identify(x, gmii).version == (if gmii { MacVersion(7) } else { MacVersion(7) })
            && spec_identify(x, gmii).name == (if gmii { "RTL8102e" } else { "RTL8102e" }),
        ((x & 0x7cf == 0x248)) ==> spec_identify(x, gmii).mask == 0x7cf && spec_identify(x, gmii).val == 0x248
            && spec_identify(x, gmii).version == (if gmii { MacVersion(7) } else { MacVersion(7) })
            && spec_identify(x, gmii).name == (if gmii { "RTL8102e" } else { "RTL8102e" }),
        ((x & 0x7cf == 0x240)) ==> spec_identify(x, gmii).mask == 0x7cf && spec_identify(x, gmii).val == 0x240
            && spec_identify(x, gmii).version == (if gmii { MacVersion(14) } else { MacVersion(14) })
            && spec_identify(x, gmii).name == (if gmii { "RTL8401" } else { "RTL8401" }),
        ((x & 0x7c8 == 0x348) && (x & 0x7cf != 0x349) && (x & 0x7cf != 0x348)) ==> spec_identify(x, gmii).mask == 0x7c8 && spec_identify(x, gmii).val == 0x348
            && spec_identify(x, gmii).version == (if gmii { MacVersion(9) } else { MacVersion(9) })
            && spec_identify(x, gmii).name == (if gmii { "RTL8102e/RTL8103e" } else { "RTL8102e/RTL8103e" }),
        ((x & 0x7c8 == 0x248) && (x & 0x7cf != 0x249) && (x & 0x7cf != 0x248)) ==> spec_identify(x, gmii).mask == 0x7c8 && spec_identify(x, gmii).val == 0x248
            && spec_identify(x, gmii).version == (if gmii { MacVersion(9) } else { MacVersion(9) })
            && spec_identify(x, gmii).name == (if gmii { "RTL8102e/RTL8103e" } else { "RTL8102e/RTL8103e" }),
        ((x & 0x7c8 == 0x340)) ==> spec_identify(x, gmii).mask == 0x7c8 && spec_identify(x, gmii).val == 0x340
            && spec_identify(x, gmii).version == (if gmii { MacVersion(10) } else { MacVersion(10) })
            && spec_identify(x, gmii).name == (if gmii { "RTL8101e/RTL8100e" } else { "RTL8101e/RTL8100e" }),
        ((x & 0xfc8 == 0x980)) ==> spec_identify(x, gmii).mask == 0xfc8 && spec_identify(x, gmii).val == 0x980
            && spec_identify(x, gmii).version == (if gmii { MacVersion(6) } else { MacVersion(6) })
            && spec_identify(x, gmii).name == (if gmii { "RTL8169sc/8110sc" } else { "RTL8169sc/8110sc" }),
        ((x & 0xfc8 == 0x180)) ==> spec_identify(x, gmii).mask == 0xfc8 && spec_identify(x, gmii).val == 0x180
            && spec_identify(x, gmii).version == (if gmii { MacVersion(5) } else { MacVersion(5) })
            && spec_identify(x, gmii).name == (if gmii { "RTL8169sc/8110sc" } else { "RTL8169sc/8110sc" }),
        ((x & 0xfc8 == 0x100)) ==> spec_identify(x, gmii).mask == 0xfc8 && spec_identify(x, gmii).val == 0x100
            && spec_identify(x, gmii).version == (if gmii { MacVersion(4) } else { MacVersion(4) })
            && spec_identify(x, gmii).name == (if gmii { "RTL8169sb/8110sb" } else { "RTL8169sb/8110sb" }),
        ((x & 0xfc8 == 0x40)) ==> spec_identify(x, gmii).mask == 0xfc8 && spec_identify(x, gmii).val == 0x40
            && spec_identify(x, gmii).version == (if gmii { MacVersion(3) } else { MacVersion(3) })
            && spec_identify(x, gmii).name == (if gmii { "RTL8110s" } else { "RTL8110s" }),
        ((x & 0xfc8 == 0x8)) ==> spec_identify(x, gmii).mask == 0xfc8 && spec_identify(x, gmii).val == 0x8
            && spec_identify(x, gmii).version == (if gmii { MacVersion(2) } else { MacVersion(2) })
            && spec_identify(x, gmii).name == (if gmii { "RTL8169s" } else { "RTL8169s" }),
        ((x & 0x7cf == 0x7c8)) ==> spec_identify(x, gmii).mask == 0x7cf && spec_identify(x, gmii).val == 0x7c8
            && spec_identify(x, gmii).version == (if gmii { MacVersion(255) } else { MacVersion(255) })
            && spec_identify(x, gmii).name == (if gmii { "(unnamed)" } else { "(unnamed)" }),
        ((x & 0x7cf != 0x6c9) && (x & 0x7cf != 0x64a) && (x & 0x7cf != 0x649) && (x & 0x7cf != 0x681) && (x & 0x7cf != 0x68b) && (x & 0x7cf != 0x68a) && (x & 0x7cf != 0x689) && (x & 0x7cf != 0x688) && (x & 0x7cf != 0x641) && (x & 0x7cf != 0x609) && (x & 0x7cf != 0x54b) && (x & 0x7cf != 0x54a) && (x & 0x7cf != 0x502) && (x & 0x7cf != 0x541) && (x & 0x7cf != 0x6c0) && (x & 0x7cf != 0x5c8) && (x & 0x7cf != 0x509) && (x & 0x7cf != 0x4c0) && (x & 0x7cf != 0x481) && (x & 0x7cf != 0x480) && (x & 0x7cf != 0x2c1) && (x & 0x7cf != 0x281) && (x & 0x7cf != 0x28a) && (x & 0x7cf != 0x28b) && (x & 0x7cf != 0x3c9) && (x & 0x7cf != 0x3c8) && (x & 0x7cf != 0x3c0) && (x & 0x7cf != 0x3c2) && (x & 0x7cf != 0x3c3) && (x & 0x7cf != 0x409) && (x & 0x7cf != 0x349) && (x & 0x7cf != 0x249) && (x & 0x7cf != 0x348) && (x & 0x7cf != 0x248) && (x & 0x7cf != 0x240) && (x & 0x7cf != 0x7c8) && (x & 0x7c8 != 0x488) && (x & 0x7c8 != 0x2c8) && (x & 0x7c8 != 0x2c0) && (x & 0x7c8 != 0x280) && (x & 0x7c8 != 0x3c8) && (x & 0x7c8 != 0x3c0) && (x & 0x7c8 != 0x380) && (x & 0x7c8 != 0x300) && (x & 0x7c8 != 0x448) && (x & 0x7c8 != 0x440) && (x & 0x7c8 != 0x408) && (x & 0x7c8 != 0x348) && (x & 0x7c8 != 0x248) && (x & 0x7c8 != 0x340) && (x & 0xfc8 != 0x980) && (x & 0xfc8 != 0x180) && (x & 0xfc8 != 0x100) && (x & 0xfc8 != 0x40) && (x & 0xfc8 != 0x8)) ==> spec_identify(x, gmii).mask == 0x0 && spec_identify(x, gmii).val == 0x0
            && spec_identify(x, gmii).version == (if gmii { MacVersion(0) } else { MacVersion(0) })
            && spec_identify(x, gmii).name == (if gmii { "(unnamed)" } else { "(unnamed)" }),
{
    if (x & 0x7cf == 0x6c9) {
        lemma_xid_row_0(x, gmii);
    }
    if (x & 0x7cf == 0x64a) {
        lemma_xid_row_1(x, gmii);
    }
    if (x & 0x7cf == 0x649) {
        lemma_xid_row_2(x, gmii);
    }
    if (x & 0x7cf == 0x681) {
        lemma_xid_row_3(x, gmii);
    }
    if (x & 0x7cf == 0x68b) {
        lemma_xid_row_4(x, gmii);
    }
    if (x & 0x7cf == 0x68a) {
        lemma_xid_row_5(x, gmii);
    }
    if (x & 0x7cf == 0x689) {
        lemma_xid_row_6(x, gmii);
    }
    if (x & 0x7cf == 0x688) {
        lemma_xid_row_7(x, gmii);
    }
    if (x & 0x7cf == 0x641) {
        lemma_xid_row_8(x, gmii);
    }
    if (x & 0x7cf == 0x609) {
        lemma_xid_row_9(x, gmii);
    }
    if (x & 0x7cf == 0x54b) {
        lemma_xid_row_10(x, gmii);
    }
    if (x & 0x7cf == 0x54a) {
        lemma_xid_row_11(x, gmii);
    }
    if (x & 0x7cf == 0x502) {
        lemma_xid_row_12(x, gmii);
    }
    if (x & 0x7cf == 0x541) {
        lemma_xid_row_13(x, gmii);
    }
    if (x & 0x7cf == 0x6c0) {
        lemma_xid_row_14(x, gmii);
    }
    if (x & 0x7cf == 0x5c8) {
        lemma_xid_row_15(x, gmii);
    }
    if (x & 0x7cf == 0x509) {
        lemma_xid_row_16(x, gmii);
    }
    if (x & 0x7cf == 0x4c0) {
        lemma_xid_row_17(x, gmii);
    }
    if (x & 0x7c8 == 0x488) {
        lemma_xid_row_18(x, gmii);
    }
    if (x & 0x7cf == 0x481) {
        lemma_xid_row_19(x, gmii);
    }
    if (x & 0x7cf == 0x480) {
        lemma_xid_row_20(x, gmii);
    }
    if (x & 0x7c8 == 0x2c8) {
        lemma_xid_row_21(x, gmii);
    }
    if (x & 0x7cf == 0x2c1) {
        lemma_xid_row_22(x, gmii);
    }
    if (x & 0x7c8 == 0x2c0) && (x & 0x7cf != 0x2c1) {
        lemma_xid_row_23(x, gmii);
    }
    if (x & 0x7cf == 0x281) {
        lemma_xid_row_24(x, gmii);
    }
    if (x & 0x7c8 == 0x280) && (x & 0x7cf != 0x281) {
        lemma_xid_row_25(x, gmii);
    }
    if (x & 0x7cf == 0x28a) {
        lemma_xid_row_26(x, gmii);
    }
    if (x & 0x7cf == 0x28b) {
        lemma_xid_row_27(x, gmii);
    }
    if (x & 0x7cf == 0x3c9) {
        lemma_xid_row_28(x, gmii);
    }
    if (x & 0x7cf == 0x3c8) {
        lemma_xid_row_29(x, gmii);
    }
    if (x & 0x7c8 == 0x3c8) && (x & 0x7cf != 0x3c9) && (x & 0x7cf != 0x3c8) {
        lemma_xid_row_30(x, gmii);
    }
    if (x & 0x7cf == 0x3c0) {
        lemma_xid_row_31(x, gmii);
    }
    if (x & 0x7cf == 0x3c2) {
        lemma_xid_row_32(x, gmii);
    }
    if (x & 0x7cf == 0x3c3) {
        lemma_xid_row_33(x, gmii);
    }
    if (x & 0x7c8 == 0x3c0) && (x & 0x7cf != 0x3c0) && (x & 0x7cf != 0x3c2) && (x & 0x7cf != 0x3c3) {
        lemma_xid_row_34(x, gmii);
    }
    if (x & 0x7c8 == 0x380) {
        lemma_xid_row_35(x, gmii);
    }
    if (x & 0x7c8 == 0x300) {
        lemma_xid_row_36(x, gmii);
    }
    if (x & 0x7c8 == 0x448) {
        lemma_xid_row_37(x, gmii);
    }
    if (x & 0x7c8 == 0x440) {
        lemma_xid_row_38(x, gmii);
    }
    if (x & 0x7cf == 0x409) {
        lemma_xid_row_39(x, gmii);
    }
    if (x & 0x7c8 == 0x408) && (x & 0x7cf != 0x409) {
        lemma_xid_row_40(x, gmii);
    }
    if (x & 0x7cf == 0x349) {
        lemma_xid_row_41(x, gmii);
    }
    if (x & 0x7cf == 0x249) {
        lemma_xid_row_42(x, gmii);
    }
    if (x & 0x7cf == 0x348) {
        lemma_xid_row_43(x, gmii);
    }
    if (x & 0x7cf == 0x248) {
        lemma_xid_row_44(x, gmii);
    }
    if (x & 0x7cf == 0x240) {
        lemma_xid_row_45(x, gmii);
    }
    if (x & 0x7c8 == 0x348) && (x & 0x7cf != 0x349) && (x & 0x7cf != 0x348) {
        lemma_xid_row_46(x, gmii);
    }
    if (x & 0x7c8 == 0x248) && (x & 0x7cf != 0x249) && (x & 0x7cf != 0x248) {
        lemma_xid_row_47(x, gmii);
    }
    if (x & 0x7c8 == 0x340) {
        lemma_xid_row_48(x, gmii);
    }
    if (x & 0xfc8 == 0x980) {
        lemma_xid_row_49(x, gmii);
    }
    if (x & 0xfc8 == 0x180) {
        lemma_xid_row_50(x, gmii);
    }
    if (x & 0xfc8 == 0x100) {
        lemma_xid_row_51(x, gmii);
    }
    if (x & 0xfc8 == 0x40) {
        lemma_xid_row_52(x, gmii);
    }
    if (x & 0xfc8 == 0x8) {
        lemma_xid_row_53(x, gmii);
    }
    if (x & 0x7cf == 0x7c8) {
        lemma_xid_row_54(x, gmii);
    }
    if (x & 0x7cf != 0x6c9) && (x & 0x7cf != 0x64a) && (x & 0x7cf != 0x649) && (x & 0x7cf != 0x681) && (x & 0x7cf != 0x68b) && (x & 0x7cf != 0x68a) && (x & 0x7cf != 0x689) && (x & 0x7cf != 0x688) && (x & 0x7cf != 0x641) && (x & 0x7cf != 0x609) && (x & 0x7cf != 0x54b) && (x & 0x7cf != 0x54a) && (x & 0x7cf != 0x502) && (x & 0x7cf != 0x541) && (x & 0x7cf != 0x6c0) && (x & 0x7cf != 0x5c8) && (x & 0x7cf != 0x509) && (x & 0x7cf != 0x4c0) && (x & 0x7cf != 0x481) && (x & 0x7cf != 0x480) && (x & 0x7cf != 0x2c1) && (x & 0x7cf != 0x281) && (x & 0x7cf != 0x28a) && (x & 0x7cf != 0x28b) && (x & 0x7cf != 0x3c9) && (x & 0x7cf != 0x3c8) && (x & 0x7cf != 0x3c0) && (x & 0x7cf != 0x3c2) && (x & 0x7cf != 0x3c3) && (x & 0x7cf != 0x409) && (x & 0x7cf != 0x349) && (x & 0x7cf != 0x249) && (x & 0x7cf != 0x348) && (x & 0x7cf != 0x248) && (x & 0x7cf != 0x240) && (x & 0x7cf != 0x7c8) && (x & 0x7c8 != 0x488) && (x & 0x7c8 != 0x2c8) && (x & 0x7c8 != 0x2c0) && (x & 0x7c8 != 0x280) && (x & 0x7c8 != 0x3c8) && (x & 0x7c8 != 0x3c0) && (x & 0x7c8 != 0x380) && (x & 0x7c8 != 0x300) && (x & 0x7c8 != 0x448) && (x & 0x7c8 != 0x440) && (x & 0x7c8 != 0x408) && (x & 0x7c8 != 0x348) && (x & 0x7c8 != 0x248) && (x & 0x7c8 != 0x340) && (x & 0xfc8 != 0x980) && (x & 0xfc8 != 0x180) && (x & 0xfc8 != 0x100) && (x & 0xfc8 != 0x40) && (x & 0xfc8 != 0x8) {
        lemma_xid_row_55(x, gmii);
    }
}

} // verus!
