//! LPSS PWM board variants and the constraints checked before the device is operated.

use vstd::prelude::*;
use crate::pwm_lpss::regs::LPSS_MAX_PWMS;

verus! {

/// Static hardware data for one board variant.
#[derive(Debug, Clone, Copy, PartialEq, Eq)]
pub struct BoardInfo {
    pub name: &'static str,
    pub clk_rate: u32,
    pub npwm: u8,
    pub base_unit_bits: u8,
    pub bypass: bool,
    pub other_devices_aml_touches_pwm_regs: bool,
}

/// BayTrail board data.
pub open spec fn spec_byt() -> BoardInfo {
    BoardInfo {
        name: "BayTrail",
        clk_rate: 25_000_000,
        npwm: 1,
        base_unit_bits: 16,
        bypass: false,
        other_devices_aml_touches_pwm_regs: false,
    }
}

/// Braswell board data.
pub open spec fn spec_bsw() -> BoardInfo {
    BoardInfo {
        name: "Braswell",
        clk_rate: 19_200_000,
        npwm: 1,
        base_unit_bits: 16,
        bypass: false,
        other_devices_aml_touches_pwm_regs: true,
    }
}

/// Broxton board data.
pub open spec fn spec_bxt() -> BoardInfo {
    BoardInfo {
        name: "Broxton",
        clk_rate: 19_200_000,
        npwm: 4,
        base_unit_bits: 22,
        bypass: true,
        other_devices_aml_touches_pwm_regs: false,
    }
}

/// Tangier board data.
pub open spec fn spec_tng() -> BoardInfo {
    BoardInfo {
        name: "Tangier",
        clk_rate: 19_200_000,
        npwm: 4,
        base_unit_bits: 22,
        bypass: false,
        other_devices_aml_touches_pwm_regs: false,
    }
}

/// BayTrail board data.
pub fn byt() -> (info: BoardInfo)
    ensures
        info == spec_byt(),
{
    BoardInfo {
        name: "BayTrail",
        clk_rate: 25_000_000,
        npwm: 1,
        base_unit_bits: 16,
        bypass: false,
        other_devices_aml_touches_pwm_regs: false,
    }
}

/// Braswell board data.
pub fn bsw() -> (info: BoardInfo)
    ensures
        info == spec_bsw(),
{
    BoardInfo {
        name: "Braswell",
        clk_rate: 19_200_000,
        npwm: 1,
        base_unit_bits: 16,
        bypass: false,
        other_devices_aml_touches_pwm_regs: true,
    }
}

/// Broxton board data.
pub fn bxt() -> (info: BoardInfo)
    ensures
        info == spec_bxt(),
{
    BoardInfo {
        name: "Broxton",
        clk_rate: 19_200_000,
        npwm: 4,
        base_unit_bits: 22,
        bypass: true,
        other_devices_aml_touches_pwm_regs: false,
    }
}

/// Tangier board data.
pub fn tng() -> (info: BoardInfo)
    ensures
        info == spec_tng(),
{
    BoardInfo {
        name: "Tangier",
        clk_rate: 19_200_000,
        npwm: 4,
        base_unit_bits: 22,
        bypass: false,
        other_devices_aml_touches_pwm_regs: false,
    }
}

/// The four known board variants, in order: BayTrail, Braswell, Broxton, Tangier.
pub fn board_infos() -> (infos: [BoardInfo; 4])
    ensures
        infos@ == seq![spec_byt(), spec_bsw(), spec_bxt(), spec_tng()],
{
    let infos = [byt(), bsw(), bxt(), tng()];
    assert(infos@ =~= seq![spec_byt(), spec_bsw(), spec_bxt(), spec_tng()]);
    infos
}

/// Why board data cannot be used.
#[derive(Debug, Clone, Copy, PartialEq, Eq)]
pub enum BoardInfoError {
    /// More channels than the controller supports.
    TooManyPwms { npwm: u8, max: u8 },
    /// A zero input clock.
    ZeroClockRate { clk_rate: u32 },
    /// The encoded base-unit field must fit below `PWM_SW_UPDATE` (widths 1 through 22).
    BaseUnitBitsOutOfRange { bits: u8, min: u8, max: u8 },
}

/// Whether a base-unit field width is one the encoding supports: 1 through 22 bits.
pub open spec fn base_unit_bits_supported(bits: u8) -> bool {
    1 <= bits <= 22
}

/// Validate the board constraints, in order: channel count, clock rate, base-unit width.
pub fn validate(info: &BoardInfo) -> (result: Result<(), BoardInfoError>)
    ensures
        match result {
            Ok(()) => info.npwm <= LPSS_MAX_PWMS && info.clk_rate != 0
                && base_unit_bits_supported(info.base_unit_bits),
            Err(BoardInfoError::TooManyPwms { npwm, max }) => info.npwm > LPSS_MAX_PWMS
                && npwm == info.npwm && max == LPSS_MAX_PWMS,
            Err(BoardInfoError::ZeroClockRate { clk_rate }) => info.npwm <= LPSS_MAX_PWMS
                && info.clk_rate == 0 && clk_rate == 0,
            Err(BoardInfoError::BaseUnitBitsOutOfRange { bits, min, max }) => info.npwm
                <= LPSS_MAX_PWMS && info.clk_rate != 0 && !base_unit_bits_supported(
                info.base_unit_bits,
            ) && bits == info.base_unit_bits && min == 1 && max == 22,
        },
{
    if info.npwm > LPSS_MAX_PWMS {
        return Err(BoardInfoError::TooManyPwms { npwm: info.npwm, max: LPSS_MAX_PWMS });
    }
    if info.clk_rate == 0 {
        return Err(BoardInfoError::ZeroClockRate { clk_rate: info.clk_rate });
    }
    if info.base_unit_bits == 0 || info.base_unit_bits > 22 {
        return Err(BoardInfoError::BaseUnitBitsOutOfRange {
            bits: info.base_unit_bits,
            min: 1,
            max: 22,
        });
    }
    Ok(())
}

} // verus!
