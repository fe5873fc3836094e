//! LPSS PWM duty/period encoding and state decoding.

use vstd::prelude::*;
use vstd::arithmetic::power2::{pow2, lemma2_to64, lemma_pow2_strictly_increases, lemma_pow2_pos};
use vstd::bits::{
    low_bits_mask, lemma_u64_shl_is_mul, lemma_u64_pow2_no_overflow, lemma_u32_shl_is_mul,
    lemma_u32_shr_is_div, lemma_u64_low_bits_mask_is_mod,
};
use crate::pwm_lpss::board::{BoardInfo, base_unit_bits_supported};
use crate::pwm_lpss::regs::{
    base_unit_mask, spec_base_unit_mask, PWM_BASE_UNIT_SHIFT, PWM_ENABLE, PWM_ON_TIME_DIV_MASK,
    PWM_SW_UPDATE,
};

verus! {

/// Nanoseconds in one second.
pub const NSEC_PER_SEC: u64 = 1_000_000_000;
/// Duty is scaled by 255.
pub const ON_TIME_SCALE: u64 = 255;

/// A configuration request that the encoding arithmetic cannot represent safely.
#[derive(Debug, Clone, Copy, PartialEq, Eq)]
pub enum EncodeError {
    ZeroClockRate { clk_rate: u32 },
    ZeroPeriod { period_ns: u64 },
    DutyExceedsPeriod { duty_ns: u64, period_ns: u64 },
    BaseUnitBitsOutOfRange { bits: u8, min: u8, max: u8 },
}

/// The two writes of a prepare: the configuration with SW_UPDATE clear, then the same word with
/// SW_UPDATE set.
#[derive(Debug, Clone, Copy, PartialEq, Eq)]
pub struct PreparedWrites {
    pub configured: u32,
    pub committed: u32,
}

/// State reconstructed from a sampled configuration register.
#[derive(Debug, Clone, Copy, PartialEq, Eq)]
pub struct DecodedState {
    pub period_ns: u64,
    pub duty_ns: u64,
    pub enabled: bool,
}

/// The base unit for a period: the output frequency `NSEC_PER_SEC / period` (truncated) times
/// `2^bits`, divided by the clock rate rounding to closest, then clamped into `1 ..= 2^bits - 1`.
pub open spec fn spec_base_unit(period_ns: u64, clk_rate: u32, bits: u8) -> int {
    let range = pow2(bits as nat) as int;
    let frequency = NSEC_PER_SEC as int / period_ns as int;
    let rounded = (frequency * range + clk_rate as int / 2) / clk_rate as int;
    if rounded < 1 {
        1
    } else if rounded > range - 1 {
        range - 1
    } else {
        rounded
    }
}

/// The inverted duty divisor: `255 - (255 * duty / period)`, the division truncating first.
pub open spec fn spec_on_time_div(duty_ns: u64, period_ns: u64) -> int {
    ON_TIME_SCALE as int - (ON_TIME_SCALE as int * duty_ns as int) / period_ns as int
}

/// The configuration word: `current` with SW_UPDATE, ON_TIME_DIV and the base-unit field
/// cleared, then the base unit placed at bit 8 and the divisor in bits 7:0.
pub open spec fn spec_configured(current: u32, bits: u8, base_unit: int, on_time_div: int) -> u32 {
    (current & !PWM_SW_UPDATE & !PWM_ON_TIME_DIV_MASK & !(spec_base_unit_mask(bits as nat) as u32))
        | ((base_unit * 256) as u32) | (on_time_div as u32)
}

/// The period decoded from a register word: the base-unit field times the clock, over `2^bits`,
/// gives the frequency; a zero frequency reads as one second.
pub open spec fn spec_decoded_period(ctrl: u32, clk_rate: u32, bits: u8) -> int {
    let range = pow2(bits as nat) as int;
    let base_unit = (ctrl as int / 256) % range;
    let frequency = base_unit * clk_rate as int / range;
    if frequency == 0 {
        NSEC_PER_SEC as int
    } else {
        NSEC_PER_SEC as int / frequency
    }
}

/// The duty decoded from a register word and its decoded period: `(255 - divisor) * period / 255`.
pub open spec fn spec_decoded_duty(ctrl: u32, period_ns: int) -> int {
    (ON_TIME_SCALE as int - (ctrl as int % 256)) * period_ns / ON_TIME_SCALE as int
}

proof fn lemma_compose_fields(cur: u32, b: u32, bu: u32, otd: u32)
    by (bit_vector)
    requires
        1 <= b <= 22,
        bu < (1u32 << b),
        otd < 256,
    ensures
        ({
            let m = (((1u32 << b) - 1) as u32) << 8u32;
            let c = (cur & !0x4000_0000u32 & !0xffu32 & !m) | (bu << 8u32) | otd;
            &&& c & 0x4000_0000u32 == 0
            &&& c & 0xffu32 == otd
            &&& (c >> 8u32) & (((1u32 << b) - 1) as u32) == bu
            &&& c & !(0x4000_0000u32 | 0xffu32 | m) == cur & !(0x4000_0000u32 | 0xffu32 | m)
        }),
{
}

proof fn lemma_low_mask_is_mod(x: u32)
    by (bit_vector)
    ensures
        x & 0xffu32 == x % 256,
{
}

/// Encode period and duty into the two prepare writes.
///
/// Unrelated control bits of `current_ctrl` are preserved; only ON_TIME_DIV and the base-unit
/// field are cleared and replaced, and SW_UPDATE is set only in the second write.
pub fn prepare_writes(current_ctrl: u32, info: &BoardInfo, duty_ns: u64, period_ns: u64) -> (result:
    Result<PreparedWrites, EncodeError>)
    requires
        info.clk_rate != 0 && period_ns != 0 && duty_ns <= period_ns && base_unit_bits_supported(
            info.base_unit_bits,
        ) ==> ON_TIME_SCALE * duty_ns <= u64::MAX,
    ensures
        match result {
            Err(EncodeError::ZeroClockRate { clk_rate }) => info.clk_rate == 0 && clk_rate == 0,
            Err(EncodeError::ZeroPeriod { period_ns: p }) => info.clk_rate != 0 && period_ns == 0
                && p == 0,
            Err(EncodeError::DutyExceedsPeriod { duty_ns: d, period_ns: p }) => info.clk_rate != 0
                && period_ns != 0 && duty_ns > period_ns && d == duty_ns && p == period_ns,
            Err(EncodeError::BaseUnitBitsOutOfRange { bits, min, max }) => info.clk_rate != 0
                && period_ns != 0 && duty_ns <= period_ns && !base_unit_bits_supported(
                info.base_unit_bits,
            ) && bits == info.base_unit_bits && min == 1 && max == 22,
            Ok(w) => {
                let bits = info.base_unit_bits;
                let base_unit = spec_base_unit(period_ns, info.clk_rate, bits);
                let on_time_div = spec_on_time_div(duty_ns, period_ns);
                let fields = (PWM_SW_UPDATE | PWM_ON_TIME_DIV_MASK | (spec_base_unit_mask(
                    bits as nat,
                ) as u32));
                &&& info.clk_rate != 0 && period_ns != 0 && duty_ns <= period_ns
                &&& base_unit_bits_supported(bits)
                &&& w.configured == spec_configured(current_ctrl, bits, base_unit, on_time_div)
                &&& w.committed == w.configured | PWM_SW_UPDATE
                &&& w.configured & PWM_SW_UPDATE == 0
                &&& w.configured & PWM_ON_TIME_DIV_MASK == on_time_div
                &&& (w.configured as int / 256) % (pow2(bits as nat) as int) == base_unit
                &&& w.configured & !fields == current_ctrl & !fields
            },
        },
{
    if info.clk_rate == 0 {
        return Err(EncodeError::ZeroClockRate { clk_rate: info.clk_rate });
    }
    if period_ns == 0 {
        return Err(EncodeError::ZeroPeriod { period_ns });
    }
    if duty_ns > period_ns {
        return Err(EncodeError::DutyExceedsPeriod { duty_ns, period_ns });
    }
    if info.base_unit_bits == 0 || info.base_unit_bits > 22 {
        return Err(EncodeError::BaseUnitBitsOutOfRange {
            bits: info.base_unit_bits,
            min: 1,
            max: 22,
        });
    }
    let bits = info.base_unit_bits;
    let frequency = NSEC_PER_SEC / period_ns;
    proof {
        lemma_u64_pow2_no_overflow(bits as nat);
        lemma_u64_shl_is_mul(1, bits as u64);
        lemma_pow2_strictly_increases(bits as nat, 23);
        lemma2_to64();
        lemma_pow2_pos(bits as nat);
    }
    let range = 1u64 << bits;
    assert(range == pow2(bits as nat));
    assert(frequency * range <= 1_000_000_000 * 0x80_0000) by (nonlinear_arith)
        requires frequency <= 1_000_000_000, range <= 0x80_0000;
    let numerator = frequency * range;
    let mut base_unit = (numerator + info.clk_rate as u64 / 2) / info.clk_rate as u64;
    if base_unit < 1 {
        base_unit = 1;
    } else if base_unit > range - 1 {
        base_unit = range - 1;
    }
    assert(base_unit == spec_base_unit(period_ns, info.clk_rate, bits));
    assert((ON_TIME_SCALE as int * duty_ns as int) / (period_ns as int) <= ON_TIME_SCALE as int) by (nonlinear_arith)
        requires duty_ns <= period_ns, period_ns > 0;
    let on_time_div = ON_TIME_SCALE - (ON_TIME_SCALE * duty_ns / period_ns);
    let mask = base_unit_mask(bits);
    let bu32 = base_unit as u32;
    let otd32 = on_time_div as u32;
    let mut ctrl = current_ctrl;
    ctrl &= !PWM_SW_UPDATE;
    ctrl &= !PWM_ON_TIME_DIV_MASK;
    ctrl &= !mask;
    proof {
        lemma_u32_shl_is_mul(bu32, 8);
        lemma_u32_shl_is_mul(1, bits as u32);
        assert(bu32 * 256 <= u32::MAX) by (nonlinear_arith)
            requires bu32 < 0x80_0000;
    }
    ctrl |= bu32 << PWM_BASE_UNIT_SHIFT;
    ctrl |= otd32;
    proof {
        let b = bits as u32;
        assert((1u32 << b) == pow2(bits as nat));
        assert(mask == (((1u32 << b) - 1) as u32) << 8u32) by {
            lemma_u32_shl_is_mul((((1u32 << b) - 1) as u32), 8);
        }
        lemma_compose_fields(current_ctrl, b, bu32, otd32);
        lemma_low_mask_is_mod(otd32);
        let c = ctrl;
        lemma_u32_shr_is_div(c, 8);
        let hi = c >> 8u32;
        assert(hi == c as int / 256);
        vstd::bits::lemma_u32_low_bits_mask_is_mod(hi, bits as nat);
        assert(low_bits_mask(bits as nat) == pow2(bits as nat) - 1);
    }
    Ok(PreparedWrites { configured: ctrl, committed: ctrl | PWM_SW_UPDATE })
}

/// Decode a sampled configuration register with the same integer arithmetic: the base-unit
/// field gives the frequency, the inverted divisor gives the duty, and bit 31 the enable.
pub fn decode_state(ctrl: u32, info: &BoardInfo) -> (result: Result<DecodedState, EncodeError>)
    ensures
        match result {
            Err(EncodeError::ZeroClockRate { clk_rate }) => info.clk_rate == 0 && clk_rate == 0,
            Err(EncodeError::BaseUnitBitsOutOfRange { bits, min, max }) => info.clk_rate != 0
                && !base_unit_bits_supported(info.base_unit_bits) && bits == info.base_unit_bits
                && min == 1 && max == 22,
            Err(_) => false,
            Ok(s) => {
                &&& info.clk_rate != 0 && base_unit_bits_supported(info.base_unit_bits)
                &&& s.period_ns == spec_decoded_period(ctrl, info.clk_rate, info.base_unit_bits)
                &&& s.duty_ns == spec_decoded_duty(ctrl, s.period_ns as int)
                &&& s.enabled == (ctrl & PWM_ENABLE != 0)
            },
        },
{
    if info.clk_rate == 0 {
        return Err(EncodeError::ZeroClockRate { clk_rate: info.clk_rate });
    }
    if info.base_unit_bits == 0 || info.base_unit_bits > 22 {
        return Err(EncodeError::BaseUnitBitsOutOfRange {
            bits: info.base_unit_bits,
            min: 1,
            max: 22,
        });
    }
    let bits = info.base_unit_bits;
    proof {
        lemma_u64_pow2_no_overflow(bits as nat);
        lemma_u64_shl_is_mul(1, bits as u64);
        lemma_pow2_strictly_increases(bits as nat, 23);
        lemma2_to64();
        lemma_pow2_pos(bits as nat);
        lemma_low_mask_is_mod(ctrl);
    }
    let range = 1u64 << bits;
    let on_time = ON_TIME_SCALE - (ctrl & PWM_ON_TIME_DIV_MASK) as u64;
    let shifted = (ctrl >> PWM_BASE_UNIT_SHIFT) as u64;
    proof {
        lemma_u32_shr_is_div(ctrl, 8);
        lemma_u64_low_bits_mask_is_mod(shifted, bits as nat);
    }
    let base_unit = shifted & (range - 1);
    assert(base_unit == (ctrl as int / 256) % (pow2(bits as nat) as int));
    assert(base_unit < range) by {
        vstd::arithmetic::div_mod::lemma_mod_bound(shifted as int, range as int);
    }
    assert(base_unit * info.clk_rate as u64 <= 0x80_0000 * 0xffff_ffff) by (nonlinear_arith)
        requires base_unit < 0x80_0000, info.clk_rate <= 0xffff_ffffu32;
    let frequency = base_unit * info.clk_rate as u64 / range;
    let period_ns = if frequency == 0 {
        NSEC_PER_SEC
    } else {
        NSEC_PER_SEC / frequency
    };
    assert(on_time * period_ns <= 255 * 1_000_000_000) by (nonlinear_arith)
        requires on_time <= 255, period_ns <= 1_000_000_000;
    let duty_ns = on_time * period_ns / ON_TIME_SCALE;
    Ok(DecodedState { period_ns, duty_ns, enabled: ctrl & PWM_ENABLE != 0 })
}

/// The register word that disables an enabled PWM: only PWM_ENABLE is cleared.
pub fn disable_word(current_ctrl: u32) -> (word: u32)
    ensures
        word == current_ctrl & !PWM_ENABLE,
{
    current_ctrl & !PWM_ENABLE
}

} // verus!
