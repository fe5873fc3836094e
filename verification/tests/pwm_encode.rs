use coral_drivers::pwm_lpss::board::{bsw, BoardInfo};
use coral_drivers::pwm_lpss::encode::{
    decode_state, disable_word, prepare_writes, DecodedState, EncodeError, NSEC_PER_SEC,
    ON_TIME_SCALE,
};

#[test]
fn arithmetic_scales_match_linux() {
    assert_eq!(NSEC_PER_SEC, 1_000_000_000);
    assert_eq!(ON_TIME_SCALE, 255);
}

#[test]
fn prepare_encodes_period_and_inverted_duty_then_requests_update() {
    let writes = prepare_writes(0x8000_0000, &bsw(), 25_000, 100_000).unwrap();
    assert_eq!(writes.configured, 0x8000_22c0);
    assert_eq!(writes.committed, 0xc000_22c0);
}

#[test]
fn prepare_preserves_linux_clamp_and_zero_duty_encoding() {
    let writes = prepare_writes(0, &bsw(), 0, 10_000_000).unwrap();
    assert_eq!(writes.configured, 0x0000_01ff);
    assert_eq!(writes.committed, 0x4000_01ff);
}

#[test]
fn get_state_decodes_with_linux_integer_truncation() {
    assert_eq!(
        decode_state(0x8000_22c0, &bsw()),
        Ok(DecodedState {
            period_ns: 100_401,
            duty_ns: 24_804,
            enabled: true
        })
    );
    assert_eq!(
        decode_state(0x0000_00ff, &bsw()),
        Ok(DecodedState {
            period_ns: 1_000_000_000,
            duty_ns: 0,
            enabled: false
        })
    );
}

#[test]
fn disabling_clears_enable_and_preserves_every_other_bit() {
    assert_eq!(disable_word(0xffff_ffff), 0x7fff_ffff);
    assert_eq!(disable_word(0x4000_22c0), 0x4000_22c0);
}

fn custom(clk_rate: u32, bits: u8) -> BoardInfo {
    BoardInfo {
        name: "test",
        clk_rate,
        npwm: 1,
        base_unit_bits: bits,
        bypass: false,
        other_devices_aml_touches_pwm_regs: false,
    }
}

#[test]
fn invalid_requests_are_named() {
    assert_eq!(
        prepare_writes(0, &bsw(), 1, 0),
        Err(EncodeError::ZeroPeriod { period_ns: 0 })
    );
    assert_eq!(
        prepare_writes(0, &bsw(), 101, 100),
        Err(EncodeError::DutyExceedsPeriod {
            duty_ns: 101,
            period_ns: 100
        })
    );
    assert_eq!(
        prepare_writes(0, &custom(0, 16), 0, 100),
        Err(EncodeError::ZeroClockRate { clk_rate: 0 })
    );
    assert_eq!(
        decode_state(0, &custom(19_200_000, 23)),
        Err(EncodeError::BaseUnitBitsOutOfRange {
            bits: 23,
            min: 1,
            max: 22
        })
    );
}
