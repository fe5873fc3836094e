//! Register/value endianness and `reg_bits`/`val_bits`/`pad_bits` packing.
//!
//! Words are modelled as mathematical integers; a formatted word is the sequence of its base-256
//! digits in big- or little-endian order. Native order is whichever of the two the machine uses.

use vstd::prelude::*;
use vstd::string::StringExecFns;
use crate::text::{dec_digits, hex_text, push_decimal, push_hex};
use vstd::arithmetic::power2::{pow2, lemma2_to64, lemma_pow2_pos, lemma_pow2_adds};

verus! {

/// Byte-order choices for registers and values.
#[derive(Debug, Clone, Copy, PartialEq, Eq)]
pub enum Endian {
    Default,
    Big,
    Little,
    Native,
}

/// The name of a byte order, as its variant is written.
pub open spec fn endian_name(e: Endian) -> Seq<char> {
    match e {
        Endian::Default => "Default"@,
        Endian::Big => "Big"@,
        Endian::Little => "Little"@,
        Endian::Native => "Native"@,
    }
}

fn endian_debug_name(e: Endian) -> (r: &'static str)
    ensures
        r@ == endian_name(e),
{
    match e {
        Endian::Default => "Default",
        Endian::Big => "Big",
        Endian::Little => "Little",
        Endian::Native => "Native",
    }
}

/// The largest value of `bits` bits (all of `u32` for 32 bits or more).
pub open spec fn max_for_bits(bits: u8) -> nat {
    if bits >= 32 {
        0xffff_ffff
    } else {
        (pow2(bits as nat) - 1) as nat
    }
}

fn mask(bits: u8) -> (r: u32)
    ensures
        r == max_for_bits(bits),
{
    if bits >= 32 {
        0xffff_ffff
    } else {
        proof {
            lemma2_to64();
            vstd::arithmetic::power2::lemma_pow2_strictly_increases(bits as nat, 32);
            vstd::bits::lemma_u32_shl_is_mul(1, bits as u32);
        }
        (1u32 << bits) - 1
    }
}

/// Names of the four byte-order choices.
pub const ENDIAN_NAMES: [&'static str; 4] = ["default", "big", "little", "native"];

/// The six combined register/value formats.
#[derive(Debug, Clone, Copy, PartialEq, Eq)]
pub enum PackedFormat {
    Reg2Val6,
    Reg4Val12,
    Reg7Val9,
    Reg7Val17,
    Reg10Val14,
    Reg12Val20,
}

/// Names of the combined formats, as register/value bit counts.
pub const PACKED_FORMAT_NAMES: [&'static str; 6] = ["2/6", "4/12", "7/9", "7/17", "10/14", "12/20"];

/// Widths of separately formatted words.
#[derive(Debug, Clone, Copy, PartialEq, Eq)]
pub enum Width {
    Bits8,
    Bits16,
    Bits24,
    Bits32,
}

/// Names of the separate word widths.
pub const WIDTH_NAMES: [&'static str; 4] = ["8", "16", "24", "32"];

/// Refusals, each naming the rejected value and its bound.
#[derive(Debug, Clone, Copy, PartialEq, Eq)]
#[allow(inconsistent_fields)]
pub enum FormatError {
    UnsupportedPackedFormat { reg_bits_with_pad: u16, val_bits: u8 },
    UnsupportedWidth { bits: u8 },
    UnsupportedRegisterWidth { bits: u16 },
    UnsupportedEndian { bits: u8, endian: Endian },
    BufferTooSmall { supplied: usize, required: usize },
    ValueOutOfRange { field: &'static str, value: u32, bits: u8 },
    ShiftOutOfRange { shift: u8, width: u8 },
}

impl FormatError {
    /// The refusal as text.
    pub open spec fn spec_message(self) -> Seq<char> {
        match self {
            FormatError::UnsupportedPackedFormat { reg_bits_with_pad, val_bits } => "packed regmap format refused reg_bits + pad remainder "@ + dec_digits(reg_bits_with_pad as nat) + " and val_bits "@ + dec_digits(val_bits as nat) + ": the supported formats are only 2/6, 4/12, 7/9, 7/17, 10/14, and 12/20"@,
            FormatError::UnsupportedWidth { bits } => "regmap width refused "@ + dec_digits(bits as nat) + " bits: the supported widths are only 8, 16, 24, and 32 bits"@,
            FormatError::UnsupportedRegisterWidth { bits } => "regmap register width plus pad remainder refused "@ + dec_digits(bits as nat) + " bits: the supported widths are only 8, 16, 24, and 32 bits"@,
            FormatError::UnsupportedEndian { bits, endian } => "regmap formatter refused "@ + endian_name(endian) + " endian for "@ + dec_digits(bits as nat) + " bits"@,
            FormatError::BufferTooSmall { supplied, required } => "regmap byte buffer refused "@ + dec_digits(supplied as nat) + " bytes: at least "@ + dec_digits(required as nat) + " bytes are required"@,
            FormatError::ValueOutOfRange { field, value, bits } => "regmap "@ + field@ + " value "@ + hex_text(value as nat) + " refused: maximum for "@ + dec_digits(bits as nat) + " bits is "@ + hex_text(max_for_bits(bits)),
            FormatError::ShiftOutOfRange { shift, width } => "regmap shift "@ + dec_digits(shift as nat) + " refused: it must be smaller than the "@ + dec_digits(width as nat) + "-bit word"@,
        }
    }

    /// Describes the refusal in words, naming the rejected values.
    pub fn message(&self) -> (s: String)
        ensures
            s@ == self.spec_message(),
    {
        match *self {
            FormatError::UnsupportedPackedFormat { reg_bits_with_pad, val_bits } => {
                let mut s = String::new();
                s.append("packed regmap format refused reg_bits + pad remainder ");
                push_decimal(&mut s, reg_bits_with_pad as u64);
                s.append(" and val_bits ");
                push_decimal(&mut s, val_bits as u64);
                s.append(": the supported formats are only 2/6, 4/12, 7/9, 7/17, 10/14, and 12/20");
                s
            },
            FormatError::UnsupportedWidth { bits } => {
                let mut s = String::new();
                s.append("regmap width refused ");
                push_decimal(&mut s, bits as u64);
                s.append(" bits: the supported widths are only 8, 16, 24, and 32 bits");
                s
            },
            FormatError::UnsupportedRegisterWidth { bits } => {
                let mut s = String::new();
                s.append("regmap register width plus pad remainder refused ");
                push_decimal(&mut s, bits as u64);
                s.append(" bits: the supported widths are only 8, 16, 24, and 32 bits");
                s
            },
            FormatError::UnsupportedEndian { bits, endian } => {
                let mut s = String::new();
                s.append("regmap formatter refused ");
                s.append(endian_debug_name(endian));
                s.append(" endian for ");
                push_decimal(&mut s, bits as u64);
                s.append(" bits");
                s
            },
            FormatError::BufferTooSmall { supplied, required } => {
                let mut s = String::new();
                s.append("regmap byte buffer refused ");
                push_decimal(&mut s, supplied as u64);
                s.append(" bytes: at least ");
                push_decimal(&mut s, required as u64);
                s.append(" bytes are required");
                s
            },
            FormatError::ValueOutOfRange { field, value, bits } => {
                let mut s = String::new();
                s.append("regmap ");
                s.append(field);
                s.append(" value ");
                push_hex(&mut s, value as u64);
                s.append(" refused: maximum for ");
                push_decimal(&mut s, bits as u64);
                s.append(" bits is ");
                push_hex(&mut s, mask(bits) as u64);
                s
            },
            FormatError::ShiftOutOfRange { shift, width } => {
                let mut s = String::new();
                s.append("regmap shift ");
                push_decimal(&mut s, shift as u64);
                s.append(" refused: it must be smaller than the ");
                push_decimal(&mut s, width as u64);
                s.append("-bit word");
                s
            },
        }
    }
}

/// Buffer layout of one register/value transaction.
#[derive(Debug, Clone, Copy, PartialEq, Eq)]
pub struct Layout {
    pub reg_shift: u8,
    pub pad_bytes: usize,
    pub reg_bytes: usize,
    pub val_bytes: usize,
    pub buf_size: usize,
}

/// Whole bytes needed for `bits` bits.
pub open spec fn bytes_for(bits: int) -> int {
    (bits + 7) / 8
}

/// The layout for the given bit counts: the pad remainder shifts the register, the whole pad
/// bytes separate register from value.
pub open spec fn spec_layout(reg_bits: u8, val_bits: u8, pad_bits: u8) -> Layout {
    Layout {
        reg_shift: (pad_bits % 8) as u8,
        pad_bytes: (pad_bits / 8) as usize,
        reg_bytes: bytes_for(reg_bits as int) as usize,
        val_bytes: bytes_for(val_bits as int) as usize,
        buf_size: bytes_for(reg_bits + val_bits + pad_bits) as usize,
    }
}

fn bits_to_bytes(bits: u16) -> (r: usize)
    requires
        bits <= 1000,
    ensures
        r == bytes_for(bits as int),
{
    ((bits + 7) / 8) as usize
}

/// Computes the transaction layout; every combination of bit counts has one.
pub fn layout(reg_bits: u8, val_bits: u8, pad_bits: u8) -> (r: Result<Layout, FormatError>)
    ensures
        r == Ok::<Layout, FormatError>(spec_layout(reg_bits, val_bits, pad_bits)),
{
    let total: u16 = reg_bits as u16 + val_bits as u16 + pad_bits as u16;
    Ok(
        Layout {
            reg_shift: pad_bits % 8,
            pad_bytes: (pad_bits / 8) as usize,
            reg_bytes: bits_to_bytes(reg_bits as u16),
            val_bytes: bits_to_bytes(val_bits as u16),
            buf_size: bits_to_bytes(total),
        },
    )
}

/// Register byte order: the configuration's, else the bus's, else big-endian.
pub open spec fn spec_reg_endian(config: Endian, bus: Endian) -> Endian {
    if config != Endian::Default {
        config
    } else if bus != Endian::Default {
        bus
    } else {
        Endian::Big
    }
}

/// Resolves the register byte order.
pub fn resolve_reg_endian(config: Endian, bus: Endian) -> (r: Endian)
    ensures
        r == spec_reg_endian(config, bus),
{
    if !matches!(config, Endian::Default) {
        config
    } else if !matches!(bus, Endian::Default) {
        bus
    } else {
        Endian::Big
    }
}

/// Value byte order: the configuration's, else firmware big, little, native (in that order),
/// else the bus's, else big-endian.
pub open spec fn spec_val_endian(
    config: Endian,
    firmware_big: bool,
    firmware_little: bool,
    firmware_native: bool,
    bus: Endian,
) -> Endian {
    if config != Endian::Default {
        config
    } else if firmware_big {
        Endian::Big
    } else if firmware_little {
        Endian::Little
    } else if firmware_native {
        Endian::Native
    } else if bus != Endian::Default {
        bus
    } else {
        Endian::Big
    }
}

/// Resolves the value byte order.
pub fn resolve_val_endian(
    config: Endian,
    firmware_big: bool,
    firmware_little: bool,
    firmware_native: bool,
    bus: Endian,
) -> (r: Endian)
    ensures
        r == spec_val_endian(config, firmware_big, firmware_little, firmware_native, bus),
{
    if !matches!(config, Endian::Default) {
        config
    } else if firmware_big {
        Endian::Big
    } else if firmware_little {
        Endian::Little
    } else if firmware_native {
        Endian::Native
    } else if !matches!(bus, Endian::Default) {
        bus
    } else {
        Endian::Big
    }
}

/// The combined format for a register width (plus pad remainder) and value width, if any.
pub open spec fn spec_packed_format(shifted: int, val_bits: int) -> Option<PackedFormat> {
    if shifted == 2 && val_bits == 6 {
        Some(PackedFormat::Reg2Val6)
    } else if shifted == 4 && val_bits == 12 {
        Some(PackedFormat::Reg4Val12)
    } else if shifted == 7 && val_bits == 9 {
        Some(PackedFormat::Reg7Val9)
    } else if shifted == 7 && val_bits == 17 {
        Some(PackedFormat::Reg7Val17)
    } else if shifted == 10 && val_bits == 14 {
        Some(PackedFormat::Reg10Val14)
    } else if shifted == 12 && val_bits == 20 {
        Some(PackedFormat::Reg12Val20)
    } else {
        None
    }
}

/// Selects the combined format; only the pad remainder adds to the register width.
pub fn packed_format(reg_bits: u8, val_bits: u8, pad_bits: u8) -> (r: Result<PackedFormat, FormatError>)
    ensures
        ({
            let shifted = reg_bits + pad_bits % 8;
            match spec_packed_format(shifted, val_bits as int) {
                Some(f) => r == Ok::<PackedFormat, FormatError>(f),
                None => r == Err::<PackedFormat, FormatError>(
                    FormatError::UnsupportedPackedFormat {
                        reg_bits_with_pad: shifted as u16,
                        val_bits,
                    },
                ),
            }
        }),
{
    let shifted: u16 = reg_bits as u16 + (pad_bits % 8) as u16;
    if shifted == 2 && val_bits == 6 {
        Ok(PackedFormat::Reg2Val6)
    } else if shifted == 4 && val_bits == 12 {
        Ok(PackedFormat::Reg4Val12)
    } else if shifted == 7 && val_bits == 9 {
        Ok(PackedFormat::Reg7Val9)
    } else if shifted == 7 && val_bits == 17 {
        Ok(PackedFormat::Reg7Val17)
    } else if shifted == 10 && val_bits == 14 {
        Ok(PackedFormat::Reg10Val14)
    } else if shifted == 12 && val_bits == 20 {
        Ok(PackedFormat::Reg12Val20)
    } else {
        Err(FormatError::UnsupportedPackedFormat { reg_bits_with_pad: shifted, val_bits })
    }
}

/// The separate width with `bits` bits, if there is one.
pub open spec fn spec_width(bits: int) -> Option<Width> {
    if bits == 8 {
        Some(Width::Bits8)
    } else if bits == 16 {
        Some(Width::Bits16)
    } else if bits == 24 {
        Some(Width::Bits24)
    } else if bits == 32 {
        Some(Width::Bits32)
    } else {
        None
    }
}

/// Bits in a word of the given width.
pub open spec fn width_bits(w: Width) -> int {
    match w {
        Width::Bits8 => 8,
        Width::Bits16 => 16,
        Width::Bits24 => 24,
        Width::Bits32 => 32,
    }
}

/// Converts a bit count to a separate width.
pub fn width(bits: u8) -> (r: Result<Width, FormatError>)
    ensures
        match spec_width(bits as int) {
            Some(w) => r == Ok::<Width, FormatError>(w),
            None => r == Err::<Width, FormatError>(FormatError::UnsupportedWidth { bits }),
        },
{
    match bits {
        8 => Ok(Width::Bits8),
        16 => Ok(Width::Bits16),
        24 => Ok(Width::Bits24),
        32 => Ok(Width::Bits32),
        _ => Err(FormatError::UnsupportedWidth { bits }),
    }
}

fn width_bit_count(w: Width) -> (r: u8)
    ensures
        r == width_bits(w),
{
    match w {
        Width::Bits8 => 8,
        Width::Bits16 => 16,
        Width::Bits24 => 24,
        Width::Bits32 => 32,
    }
}

/// Byte orders each width supports: any for one byte; big, little or native for 16 and 32
/// bits; big only for 24 bits.
pub open spec fn endian_ok(w: Width, e: Endian) -> bool {
    match w {
        Width::Bits8 => true,
        Width::Bits16 | Width::Bits32 => e is Big || e is Little || e is Native,
        Width::Bits24 => e is Big,
    }
}

fn validate_endian(w: Width, endian: Endian) -> (r: Result<(), FormatError>)
    ensures
        endian_ok(w, endian) ==> r is Ok,
        !endian_ok(w, endian) ==> r == Err::<(), FormatError>(
            FormatError::UnsupportedEndian { bits: width_bits(w) as u8, endian },
        ),
{
    let bits = width_bit_count(w);
    let valid = match w {
        Width::Bits8 => true,
        Width::Bits16 | Width::Bits32 => matches!(endian, Endian::Big | Endian::Little | Endian::Native),
        Width::Bits24 => matches!(endian, Endian::Big),
    };
    if valid {
        Ok(())
    } else {
        Err(FormatError::UnsupportedEndian { bits, endian })
    }
}

/// Whether `value` fits in `bits` bits (anything fits in 32 or more).
pub open spec fn fits(value: u32, bits: u8) -> bool {
    bits >= 32 || value < pow2(bits as nat)
}

fn checked_field(field: &'static str, value: u32, bits: u8) -> (r: Result<(), FormatError>)
    ensures
        fits(value, bits) ==> r is Ok,
        !fits(value, bits) ==> r == Err::<(), FormatError>(
            FormatError::ValueOutOfRange { field, value, bits },
        ),
{
    if bits < 32 {
        let b: u32 = bits as u32;
        proof {
            vstd::bits::lemma_u32_shr_is_div(value, b);
            lemma_pow2_pos(b as nat);
            let d = pow2(b as nat) as int;
            assert((value as int / d == 0) <==> (value < d)) by (nonlinear_arith)
                requires
                    d > 0,
                    value >= 0,
            ;
        }
        if (value >> b) != 0 {
            return Err(FormatError::ValueOutOfRange { field, value, bits });
        }
    }
    Ok(())
}

/// Weight of the byte `k` places from the low end: 256 to the power `k`, for `k < 4`.
pub open spec fn place(k: int) -> int {
    if k == 0 {
        1
    } else if k == 1 {
        0x100
    } else if k == 2 {
        0x1_0000
    } else {
        0x100_0000
    }
}

/// Byte `i` of the `n`-byte big-endian form of `word` (byte 0 is the most significant).
pub open spec fn be_byte(word: int, n: int, i: int) -> int {
    (word / place(n - 1 - i)) % 256
}

/// Byte `i` of the little-endian form of `word` (byte 0 is the least significant).
pub open spec fn le_byte(word: int, i: int) -> int {
    (word / place(i)) % 256
}

/// `s[start..start + n]` holds `word` in big-endian order.
pub open spec fn holds_be(s: Seq<u8>, start: int, n: int, word: int) -> bool {
    forall|i: int| 0 <= i < n ==> #[trigger] s[start + i] == be_byte(word, n, i)
}

/// `s[start..start + n]` holds `word` in little-endian order.
pub open spec fn holds_le(s: Seq<u8>, start: int, n: int, word: int) -> bool {
    forall|i: int| 0 <= i < n ==> #[trigger] s[start + i] == le_byte(word, i)
}

/// `s[start..start + n]` holds `word` in the byte order `endian` selects: little-endian for
/// `Little`, either order for `Native`, big-endian otherwise (a single byte reads the same
/// both ways).
pub open spec fn holds_word(s: Seq<u8>, start: int, n: int, word: int, endian: Endian) -> bool {
    match endian {
        Endian::Little => holds_le(s, start, n, word),
        Endian::Native => holds_be(s, start, n, word) || holds_le(s, start, n, word),
        _ => holds_be(s, start, n, word),
    }
}

/// `after` equals `before` outside `[lo, hi)`.
pub open spec fn same_outside(before: Seq<u8>, after: Seq<u8>, lo: int, hi: int) -> bool {
    &&& after.len() == before.len()
    &&& forall|j: int| 0 <= j < before.len() && !(lo <= j < hi) ==> #[trigger] after[j] == before[j]
}

fn byte_at(w: u32, k: usize) -> (b: u8)
    requires
        k < 4,
    ensures
        b == (w as int / place(k as int)) % 256,
{
    if k == 0 {
        (w % 256) as u8
    } else if k == 1 {
        ((w / 0x100) % 256) as u8
    } else if k == 2 {
        ((w / 0x1_0000) % 256) as u8
    } else {
        ((w / 0x100_0000) % 256) as u8
    }
}

fn write_be(out: &mut [u8], start: usize, n: usize, word: u32)
    requires
        n <= 4,
        start + n <= old(out)@.len(),
    ensures
        same_outside(old(out)@, final(out)@, start as int, start + n),
        holds_be(final(out)@, start as int, n as int, word as int),
{
    let ghost before = out@;
    let len = out.len();
    let mut i: usize = 0;
    while i < n
        invariant
            n <= 4,
            i <= n,
            len == before.len(),
            start + n <= len,
            same_outside(before, out@, start as int, start + i),
            forall|k: int| 0 <= k < i ==> #[trigger] out@[start + k] == be_byte(word as int, n as int, k),
        decreases n - i,
    {
        let b = byte_at(word, n - 1 - i);
        out[start + i] = b;
        i = i + 1;
    }
}

fn write_le(out: &mut [u8], start: usize, n: usize, word: u32)
    requires
        n <= 4,
        start + n <= old(out)@.len(),
    ensures
        same_outside(old(out)@, final(out)@, start as int, start + n),
        holds_le(final(out)@, start as int, n as int, word as int),
{
    let ghost before = out@;
    let len = out.len();
    let mut i: usize = 0;
    while i < n
        invariant
            n <= 4,
            i <= n,
            len == before.len(),
            start + n <= len,
            same_outside(before, out@, start as int, start + i),
            forall|k: int| 0 <= k < i ==> #[trigger] out@[start + k] == le_byte(word as int, k),
        decreases n - i,
    {
        let b = byte_at(word, i);
        out[start + i] = b;
        i = i + 1;
    }
}

/// Calls std's `u16::to_ne_bytes`. Its documentation says the bytes are the value's memory
/// representation in the machine's byte order, which is big- or little-endian; the contract
/// states only that it is one of the two.
#[verifier::external_body]
fn u16_to_ne_bytes(x: u16) -> (r: [u8; 2])
    ensures
        (r[0] == x / 256 && r[1] == x % 256) || (r[0] == x % 256 && r[1] == x / 256),
{
    x.to_ne_bytes()
}

/// Calls std's `u32::to_ne_bytes`: the bytes come out in the machine's byte order, big- or
/// little-endian; the contract states only that it is one of the two.
#[verifier::external_body]
fn u32_to_ne_bytes(x: u32) -> (r: [u8; 4])
    ensures
        holds_be(r@, 0, 4, x as int) || holds_le(r@, 0, 4, x as int),
{
    x.to_ne_bytes()
}

/// Register bits, value bits and bytes of a combined format.
pub open spec fn combined_bits(f: PackedFormat) -> (u8, u8, usize) {
    match f {
        PackedFormat::Reg2Val6 => (2, 6, 1),
        PackedFormat::Reg4Val12 => (4, 12, 2),
        PackedFormat::Reg7Val9 => (7, 9, 2),
        PackedFormat::Reg7Val17 => (7, 17, 3),
        PackedFormat::Reg10Val14 => (10, 14, 3),
        PackedFormat::Reg12Val20 => (12, 20, 4),
    }
}

/// The combined word: the register above the value's bits, the value below.
pub open spec fn combined_word(f: PackedFormat, reg: u32, val: u32) -> int {
    reg * pow2(combined_bits(f).1 as nat) + val
}

/// Packs a register and value into one combined word written big-endian at the start of
/// `out`. An over-wide register or value, or a short buffer, is refused and `out` is left as
/// it was.
pub fn pack_combined(format: PackedFormat, reg: u32, val: u32, out: &mut [u8]) -> (r: Result<
    usize,
    FormatError,
>)
    ensures
        ({
            let (rb, vb, req) = combined_bits(format);
            if !fits(reg, rb) {
                &&& r == Err::<usize, FormatError>(
                    FormatError::ValueOutOfRange { field: "register", value: reg, bits: rb },
                )
                &&& final(out)@ == old(out)@
            } else if !fits(val, vb) {
                &&& r == Err::<usize, FormatError>(
                    FormatError::ValueOutOfRange { field: "value", value: val, bits: vb },
                )
                &&& final(out)@ == old(out)@
            } else if old(out)@.len() < req {
                &&& r == Err::<usize, FormatError>(
                    FormatError::BufferTooSmall { supplied: old(out)@.len() as usize, required: req },
                )
                &&& final(out)@ == old(out)@
            } else {
                &&& r == Ok::<usize, FormatError>(req)
                &&& same_outside(old(out)@, final(out)@, 0, req as int)
                &&& holds_be(final(out)@, 0, req as int, combined_word(format, reg, val))
            }
        }),
{
    let (rb, vb, required): (u8, u8, usize) = match format {
        PackedFormat::Reg2Val6 => (2, 6, 1),
        PackedFormat::Reg4Val12 => (4, 12, 2),
        PackedFormat::Reg7Val9 => (7, 9, 2),
        PackedFormat::Reg7Val17 => (7, 17, 3),
        PackedFormat::Reg10Val14 => (10, 14, 3),
        PackedFormat::Reg12Val20 => (12, 20, 4),
    };
    match checked_field("register", reg, rb) {
        Err(e) => return Err(e),
        Ok(_) => {},
    }
    match checked_field("value", val, vb) {
        Err(e) => return Err(e),
        Ok(_) => {},
    }
    if out.len() < required {
        return Err(FormatError::BufferTooSmall { supplied: out.len(), required });
    }
    proof {
        lemma2_to64();
    }
    let word: u32 = match format {
        PackedFormat::Reg2Val6 => reg * 0x40 + val,
        PackedFormat::Reg4Val12 => reg * 0x1000 + val,
        PackedFormat::Reg7Val9 => reg * 0x200 + val,
        PackedFormat::Reg7Val17 => reg * 0x2_0000 + val,
        PackedFormat::Reg10Val14 => reg * 0x4000 + val,
        PackedFormat::Reg12Val20 => reg * 0x10_0000 + val,
    };
    write_be(out, 0, required, word);
    Ok(required)
}

/// The refusal formatting a word would meet, checked in order: byte order, shift, value
/// width, then room (`avail` bytes); `None` when the word can be written.
pub open spec fn format_check(w: Width, endian: Endian, value: u32, shift: u8, avail: int) -> Option<
    FormatError,
> {
    let bits = width_bits(w);
    if !endian_ok(w, endian) {
        Some(FormatError::UnsupportedEndian { bits: bits as u8, endian })
    } else if shift >= bits {
        Some(FormatError::ShiftOutOfRange { shift, width: bits as u8 })
    } else if !fits(value, (bits - shift) as u8) {
        Some(FormatError::ValueOutOfRange { field: "value", value, bits: (bits - shift) as u8 })
    } else if avail < bits / 8 {
        Some(FormatError::BufferTooSmall { supplied: avail as usize, required: (bits / 8) as usize })
    } else {
        None
    }
}

/// The word written for `value` shifted left by `shift` bits.
pub open spec fn shifted_word(value: u32, shift: u8) -> int {
    value * pow2(shift as nat)
}

/// Calls std's `u16::from_ne_bytes`: the bytes are read in the machine's byte order, big- or
/// little-endian; the contract states only that it is one of the two.
#[verifier::external_body]
fn u16_from_ne_bytes(b: [u8; 2]) -> (r: u16)
    ensures
        r == b[0] * 256 + b[1] || r == b[1] * 256 + b[0],
{
    u16::from_ne_bytes(b)
}

/// Calls std's `u32::from_ne_bytes`: the bytes are read in the machine's byte order, big- or
/// little-endian; the contract states only that it is one of the two.
#[verifier::external_body]
fn u32_from_ne_bytes(b: [u8; 4]) -> (r: u32)
    ensures
        r == be_value(b@, 4) || r == le_value(b@, 4),
{
    u32::from_ne_bytes(b)
}

#[verifier::rlimit(40)]
fn format_word_at(
    w: Width,
    endian: Endian,
    value: u32,
    shift: u8,
    out: &mut [u8],
    start: usize,
    avail: usize,
) -> (r: Result<usize, FormatError>)
    requires
        start + avail <= old(out)@.len(),
    ensures
        match format_check(w, endian, value, shift, avail as int) {
            Some(e) => r == Err::<usize, FormatError>(e) && final(out)@ == old(out)@,
            None => {
                let n = width_bits(w) / 8;
                &&& r == Ok::<usize, FormatError>(n as usize)
                &&& same_outside(old(out)@, final(out)@, start as int, start + n)
                &&& holds_word(final(out)@, start as int, n, shifted_word(value, shift), endian)
            },
        },
{
    match validate_endian(w, endian) {
        Err(e) => return Err(e),
        Ok(_) => {},
    }
    let bits = width_bit_count(w);
    if shift >= bits {
        return Err(FormatError::ShiftOutOfRange { shift, width: bits });
    }
    match checked_field("value", value, bits - shift) {
        Err(e) => return Err(e),
        Ok(_) => {},
    }
    let required: usize = (bits / 8) as usize;
    if avail < required {
        return Err(FormatError::BufferTooSmall { supplied: avail, required });
    }
    proof {
        lemma2_to64();
        lemma_pow2_pos(shift as nat);
        if shift > 0 {
            let a = pow2((bits - shift) as nat) as int;
            let b = pow2(shift as nat) as int;
            lemma_pow2_adds((bits - shift) as nat, shift as nat);
            assert(value * b < a * b) by (nonlinear_arith)
                requires
                    value < a,
                    b > 0,
            ;
        }
        vstd::bits::lemma_u32_shl_is_mul(value, shift as u32);
        assert(bits < 32 ==> shifted_word(value, shift) < pow2(bits as nat));
    }
    let shifted: u32 = value << shift;
    match w {
        Width::Bits8 => write_be(out, start, 1, shifted),
        Width::Bits16 => match endian {
            Endian::Little => write_le(out, start, 2, shifted),
            Endian::Native => {
                let b = u16_to_ne_bytes(shifted as u16);
                out[start] = b[0];
                out[start + 1] = b[1];
                proof {
                    let x = shifted as int;
                    assert(x < 0x1_0000);
                    assert(out@[start + 0] == b[0] && out@[start + 1] == b[1]);
                    if b[0] == x / 256 && b[1] == x % 256 {
                        assert forall|i: int| 0 <= i < 2 implies #[trigger] out@[start + i]
                            == be_byte(x, 2, i) by {
                            if i == 0 {
                                assert(out@[start + 0] == b[0]);
                            } else {
                                assert(out@[start + 1] == b[1]);
                            }
                        }
                    } else {
                        assert forall|i: int| 0 <= i < 2 implies #[trigger] out@[start + i]
                            == le_byte(x, i) by {
                            if i == 0 {
                                assert(out@[start + 0] == b[0]);
                            } else {
                                assert(out@[start + 1] == b[1]);
                            }
                        }
                    }
                }
            },
            _ => write_be(out, start, 2, shifted),
        },
        Width::Bits24 => write_be(out, start, 3, shifted),
        Width::Bits32 => match endian {
            Endian::Little => write_le(out, start, 4, shifted),
            Endian::Native => {
                let b = u32_to_ne_bytes(shifted);
                out[start] = b[0];
                out[start + 1] = b[1];
                out[start + 2] = b[2];
                out[start + 3] = b[3];
                proof {
                    let x = shifted as int;
                    assert forall|i: int| 0 <= i < 4 implies #[trigger] out@[start + i] == b@[0 + i] by {
                        if i == 0 {
                        } else if i == 1 {
                        } else if i == 2 {
                        } else {
                        }
                    }
                    if holds_be(b@, 0, 4, x) {
                        assert forall|i: int| 0 <= i < 4 implies #[trigger] out@[start + i]
                            == be_byte(x, 4, i) by {
                            assert(out@[start + i] == b@[0 + i]);
                        }
                    } else {
                        assert forall|i: int| 0 <= i < 4 implies #[trigger] out@[start + i]
                            == le_byte(x, i) by {
                            assert(out@[start + i] == b@[0 + i]);
                        }
                    }
                }
            },
            _ => write_be(out, start, 4, shifted),
        },
    }
    Ok(required)
}

/// Formats one word, shifted left by `shift` bits first, at the start of `out`. On a refusal
/// `out` is left as it was; on success only the word's bytes change.
pub fn format_word(w: Width, endian: Endian, value: u32, shift: u8, out: &mut [u8]) -> (r: Result<
    usize,
    FormatError,
>)
    ensures
        match format_check(w, endian, value, shift, old(out)@.len() as int) {
            Some(e) => r == Err::<usize, FormatError>(e) && final(out)@ == old(out)@,
            None => {
                let n = width_bits(w) / 8;
                &&& r == Ok::<usize, FormatError>(n as usize)
                &&& same_outside(old(out)@, final(out)@, 0, n)
                &&& holds_word(final(out)@, 0, n, shifted_word(value, shift), endian)
            },
        },
{
    let len = out.len();
    format_word_at(w, endian, value, shift, out, 0, len)
}

/// `s` with its first `n` bytes set to zero.
pub open spec fn zero_prefix(s: Seq<u8>, n: int) -> Seq<u8> {
    Seq::new(s.len(), |j: int| if j < n { 0u8 } else { s[j] })
}

/// `after` equals `before` outside the two ranges `[lo1, hi1)` and `[lo2, hi2)`.
pub open spec fn same_outside_two(
    before: Seq<u8>,
    after: Seq<u8>,
    lo1: int,
    hi1: int,
    lo2: int,
    hi2: int,
) -> bool {
    &&& after.len() == before.len()
    &&& forall|j: int|
        0 <= j < before.len() && !(lo1 <= j < hi1) && !(lo2 <= j < hi2) ==> #[trigger] after[j]
            == before[j]
}

proof fn lemma_layout_bounds(reg_bits: u8, val_bits: u8, pad_bits: u8)
    ensures
        ({
            let lay = spec_layout(reg_bits, val_bits, pad_bits);
            &&& lay.reg_bytes <= lay.buf_size
            &&& lay.reg_bytes + lay.pad_bytes <= lay.buf_size
        }),
{
}

/// Packs a register word (shifted by the pad remainder), zero pad bytes and a value word into
/// one transaction buffer. Checks come in order: buffer size, register width (register bits
/// plus pad remainder), value width; then the buffer's first `buf_size` bytes are zeroed and
/// the register and value are formatted, each refusal of those leaving what was already
/// written in place.
pub fn pack_separate(
    reg_bits: u8,
    val_bits: u8,
    pad_bits: u8,
    reg_endian: Endian,
    val_endian: Endian,
    reg: u32,
    val: u32,
    out: &mut [u8],
) -> (r: Result<usize, FormatError>)
    ensures
        ({
            let lay = spec_layout(reg_bits, val_bits, pad_bits);
            let eff = reg_bits + lay.reg_shift;
            let len = old(out)@.len();
            let zeroed = zero_prefix(old(out)@, lay.buf_size as int);
            let val_start = lay.reg_bytes + lay.pad_bytes;
            if len < lay.buf_size {
                &&& r == Err::<usize, FormatError>(
                    FormatError::BufferTooSmall { supplied: len as usize, required: lay.buf_size },
                )
                &&& final(out)@ == old(out)@
            } else if spec_width(eff) is None {
                &&& r == Err::<usize, FormatError>(
                    FormatError::UnsupportedRegisterWidth { bits: eff as u16 },
                )
                &&& final(out)@ == old(out)@
            } else if spec_width(val_bits as int) is None {
                &&& r == Err::<usize, FormatError>(FormatError::UnsupportedWidth { bits: val_bits })
                &&& final(out)@ == old(out)@
            } else {
                let rw = spec_width(eff)->0;
                let vw = spec_width(val_bits as int)->0;
                let rn = width_bits(rw) / 8;
                let vn = width_bits(vw) / 8;
                let reg_word = shifted_word(reg, lay.reg_shift);
                match format_check(rw, reg_endian, reg, lay.reg_shift, lay.reg_bytes as int) {
                    Some(e) => r == Err::<usize, FormatError>(e) && final(out)@ == zeroed,
                    None => match format_check(
                        vw,
                        val_endian,
                        val,
                        0,
                        lay.buf_size - val_start,
                    ) {
                        Some(e) => {
                            &&& r == Err::<usize, FormatError>(e)
                            &&& same_outside(zeroed, final(out)@, 0, rn)
                            &&& holds_word(final(out)@, 0, rn, reg_word, reg_endian)
                        },
                        None => {
                            &&& r == Ok::<usize, FormatError>(lay.buf_size)
                            &&& same_outside_two(
                                zeroed,
                                final(out)@,
                                0,
                                rn,
                                val_start as int,
                                val_start + vn,
                            )
                            &&& holds_word(final(out)@, 0, rn, reg_word, reg_endian)
                            &&& holds_word(final(out)@, val_start as int, vn, val as int, val_endian)
                        },
                    },
                }
            }
        }),
{
    let lay = match layout(reg_bits, val_bits, pad_bits) {
        Ok(l) => l,
        Err(e) => return Err(e),
    };
    if out.len() < lay.buf_size {
        return Err(FormatError::BufferTooSmall { supplied: out.len(), required: lay.buf_size });
    }
    let eff: u16 = reg_bits as u16 + lay.reg_shift as u16;
    if eff > 255 {
        return Err(FormatError::UnsupportedRegisterWidth { bits: eff });
    }
    let reg_width = match width(eff as u8) {
        Ok(w) => w,
        Err(_) => return Err(FormatError::UnsupportedRegisterWidth { bits: eff }),
    };
    let val_width = match width(val_bits) {
        Ok(w) => w,
        Err(e) => return Err(e),
    };
    let ghost before = out@;
    let mut i: usize = 0;
    while i < lay.buf_size
        invariant
            i <= lay.buf_size,
            lay.buf_size <= before.len(),
            out@.len() == before.len(),
            forall|j: int| 0 <= j < before.len() ==> #[trigger] out@[j] == (if j < i { 0u8 } else { before[j] }),
        decreases lay.buf_size - i,
    {
        out[i] = 0;
        i = i + 1;
    }
    assert(out@ == zero_prefix(before, lay.buf_size as int));
    proof {
        lemma_layout_bounds(reg_bits, val_bits, pad_bits);
    }
    let ghost zeroed = out@;
    match format_word_at(reg_width, reg_endian, reg, lay.reg_shift, out, 0, lay.reg_bytes) {
        Err(e) => return Err(e),
        Ok(_) => {},
    }
    let ghost mid = out@;
    let val_start = lay.reg_bytes + lay.pad_bytes;
    match format_word_at(val_width, val_endian, val, 0, out, val_start, lay.buf_size - val_start) {
        Err(e) => return Err(e),
        Ok(_) => {},
    }
    proof {
        lemma2_to64();
        let rn = width_bits(reg_width) / 8;
        let vn = width_bits(val_width) / 8;
        assert(rn <= lay.reg_bytes);
        assert forall|k: int| 0 <= k < rn implies #[trigger] out@[k] == mid[k] by {
            assert(!(val_start <= k < val_start + vn));
        }
    }
    Ok(lay.buf_size)
}

/// Big-endian value of the first `n` bytes of `s` (`1 <= n <= 4`).
pub open spec fn be_value(s: Seq<u8>, n: int) -> int {
    if n == 1 {
        s[0] as int
    } else if n == 2 {
        s[0] * 0x100 + s[1]
    } else if n == 3 {
        s[0] * 0x1_0000 + s[1] * 0x100 + s[2]
    } else {
        s[0] * 0x100_0000 + s[1] * 0x1_0000 + s[2] * 0x100 + s[3]
    }
}

/// Little-endian value of the first `n` bytes of `s` (`1 <= n <= 4`).
pub open spec fn le_value(s: Seq<u8>, n: int) -> int {
    if n == 1 {
        s[0] as int
    } else if n == 2 {
        s[1] * 0x100 + s[0]
    } else if n == 3 {
        s[2] * 0x1_0000 + s[1] * 0x100 + s[0]
    } else {
        s[3] * 0x100_0000 + s[2] * 0x1_0000 + s[1] * 0x100 + s[0]
    }
}

/// The value read from `s` in the byte order `endian` selects: little-endian for `Little`,
/// either order for `Native`, big-endian otherwise.
pub open spec fn reads_as(s: Seq<u8>, n: int, endian: Endian, v: int) -> bool {
    match endian {
        Endian::Little => v == le_value(s, n),
        Endian::Native => v == be_value(s, n) || v == le_value(s, n),
        _ => v == be_value(s, n),
    }
}

/// The refusal parsing would meet: byte order, then length.
pub open spec fn parse_check(w: Width, endian: Endian, len: int) -> Option<FormatError> {
    let bits = width_bits(w);
    if !endian_ok(w, endian) {
        Some(FormatError::UnsupportedEndian { bits: bits as u8, endian })
    } else if len < bits / 8 {
        Some(FormatError::BufferTooSmall { supplied: len as usize, required: (bits / 8) as usize })
    } else {
        None
    }
}

/// Parses one word from the start of `input`.
pub fn parse_word(w: Width, endian: Endian, input: &[u8]) -> (r: Result<u32, FormatError>)
    ensures
        match parse_check(w, endian, input@.len() as int) {
            Some(e) => r == Err::<u32, FormatError>(e),
            None => r is Ok && reads_as(input@, width_bits(w) / 8, endian, r->Ok_0 as int),
        },
{
    match validate_endian(w, endian) {
        Err(e) => return Err(e),
        Ok(_) => {},
    }
    let required: usize = match w {
        Width::Bits8 => 1,
        Width::Bits16 => 2,
        Width::Bits24 => 3,
        Width::Bits32 => 4,
    };
    if input.len() < required {
        return Err(FormatError::BufferTooSmall { supplied: input.len(), required });
    }
    let v: u32 = match w {
        Width::Bits8 => input[0] as u32,
        Width::Bits16 => match endian {
            Endian::Little => (input[1] as u32) * 0x100 + input[0] as u32,
            Endian::Native => u16_from_ne_bytes([input[0], input[1]]) as u32,
            _ => (input[0] as u32) * 0x100 + input[1] as u32,
        },
        Width::Bits24 => (input[0] as u32) * 0x1_0000 + (input[1] as u32) * 0x100 + input[2] as u32,
        Width::Bits32 => match endian {
            Endian::Little => (input[3] as u32) * 0x100_0000 + (input[2] as u32) * 0x1_0000 + (
            input[1] as u32) * 0x100 + input[0] as u32,
            Endian::Native => u32_from_ne_bytes([input[0], input[1], input[2], input[3]]),
            _ => (input[0] as u32) * 0x100_0000 + (input[1] as u32) * 0x1_0000 + (input[2] as u32)
                * 0x100 + input[3] as u32,
        },
    };
    Ok(v)
}

/// Reading back a word in the big- or little-endian order it was written in gives the word:
/// bytes that `format_word` leaves for a value (unshifted) are parsed by `parse_word`, with
/// the same width and byte order, to that value.
pub proof fn lemma_parse_inverts_format(w: Width, endian: Endian, value: u32, s: Seq<u8>)
    requires
        endian is Big || endian is Little,
        endian_ok(w, endian),
        fits(value, width_bits(w) as u8),
        s.len() >= width_bits(w) / 8,
        holds_word(s, 0, width_bits(w) / 8, value as int, endian),
    ensures
        parse_check(w, endian, s.len() as int) is None,
        reads_as(s, width_bits(w) / 8, endian, value as int),
{
    lemma2_to64();
    let n = width_bits(w) / 8;
    let x = value as int;
    if endian is Big {
        assert(s[0int + 0] == be_byte(x, n, 0));
        if n >= 2 {
            assert(s[0int + 1] == be_byte(x, n, 1));
        }
        if n >= 3 {
            assert(s[0int + 2] == be_byte(x, n, 2));
        }
        if n >= 4 {
            assert(s[0int + 3] == be_byte(x, n, 3));
        }
    } else {
        assert(s[0int + 0] == le_byte(x, 0));
        if n >= 2 {
            assert(s[0int + 1] == le_byte(x, 1));
        }
        if n >= 3 {
            assert(s[0int + 2] == le_byte(x, 2));
        }
        if n >= 4 {
            assert(s[0int + 3] == le_byte(x, 3));
        }
    }
}

} // verus!
