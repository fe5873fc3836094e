use coral_drivers::pwm_lpss::board::{validate, BoardInfo, BoardInfoError, board_infos};

#[test]
fn all_four_linux_board_infos_are_present_and_named() {
    assert_eq!(board_infos().len(), 4);
    let names = [
        board_infos()[0].name,
        board_infos()[1].name,
        board_infos()[2].name,
        board_infos()[3].name,
    ];
    assert_eq!(names, ["BayTrail", "Braswell", "Broxton", "Tangier"]);

    assert_eq!(
        (
            board_infos()[0].clk_rate,
            board_infos()[0].npwm,
            board_infos()[0].base_unit_bits,
            board_infos()[0].bypass,
            board_infos()[0].other_devices_aml_touches_pwm_regs
        ),
        (25_000_000, 1, 16, false, false)
    );
    assert_eq!(
        (
            board_infos()[1].clk_rate,
            board_infos()[1].npwm,
            board_infos()[1].base_unit_bits,
            board_infos()[1].bypass,
            board_infos()[1].other_devices_aml_touches_pwm_regs
        ),
        (19_200_000, 1, 16, false, true)
    );
    assert_eq!(
        (
            board_infos()[2].clk_rate,
            board_infos()[2].npwm,
            board_infos()[2].base_unit_bits,
            board_infos()[2].bypass,
            board_infos()[2].other_devices_aml_touches_pwm_regs
        ),
        (19_200_000, 4, 22, true, false)
    );
    assert_eq!(
        (
            board_infos()[3].clk_rate,
            board_infos()[3].npwm,
            board_infos()[3].base_unit_bits,
            board_infos()[3].bypass,
            board_infos()[3].other_devices_aml_touches_pwm_regs
        ),
        (19_200_000, 4, 22, false, false)
    );
}

fn sample() -> BoardInfo {
    BoardInfo {
        name: "test",
        clk_rate: 19_200_000,
        npwm: 1,
        base_unit_bits: 16,
        bypass: false,
        other_devices_aml_touches_pwm_regs: false,
    }
}

#[test]
fn validation_names_what_refused_and_why() {
    assert_eq!(validate(&sample()), Ok(()));

    let mut too_many = sample();
    too_many.npwm = 5;
    assert_eq!(
        validate(&too_many),
        Err(BoardInfoError::TooManyPwms { npwm: 5, max: 4 })
    );

    let mut no_clock = sample();
    no_clock.clk_rate = 0;
    assert_eq!(
        validate(&no_clock),
        Err(BoardInfoError::ZeroClockRate { clk_rate: 0 })
    );

    let mut too_wide = sample();
    too_wide.base_unit_bits = 23;
    assert_eq!(
        validate(&too_wide),
        Err(BoardInfoError::BaseUnitBitsOutOfRange {
            bits: 23,
            min: 1,
            max: 22
        })
    );
}
