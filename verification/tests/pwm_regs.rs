use coral_drivers::pwm_lpss::regs::{
    base_unit_mask, channel_offset, LPSS_MAX_PWMS, PWM, PWM_BASE_UNIT_SHIFT, PWM_ENABLE,
    PWM_ON_TIME_DIV_MASK, PWM_SIZE, PWM_SW_UPDATE,
};

#[test]
fn register_literals_match_linux() {
    assert_eq!(PWM, 0x0000_0000);
    assert_eq!(PWM_ENABLE, 0x8000_0000);
    assert_eq!(PWM_SW_UPDATE, 0x4000_0000);
    assert_eq!(PWM_BASE_UNIT_SHIFT, 8);
    assert_eq!(PWM_ON_TIME_DIV_MASK, 0x0000_00ff);
    assert_eq!(PWM_SIZE, 0x400);
    assert_eq!(LPSS_MAX_PWMS, 4);
}

#[test]
fn every_linux_channel_offset_is_pinned() {
    let got = [
        channel_offset(0),
        channel_offset(1),
        channel_offset(2),
        channel_offset(3),
    ];
    assert_eq!(got.len(), 4);
    assert_eq!(got, [0x000, 0x400, 0x800, 0xc00]);
}

#[test]
fn base_unit_masks_match_both_linux_widths() {
    assert_eq!(base_unit_mask(16), 0x00ff_ff00);
    assert_eq!(base_unit_mask(22), 0x3fff_ff00);
    assert_eq!(base_unit_mask(16) & 0x0000_00ff, 0);
    assert_eq!(base_unit_mask(22) & 0xc000_0000, 0);
}
