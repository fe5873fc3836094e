use coral_drivers::pwm_lpss::sequence::{
    update_cleared, UpdateAction, UpdateRefusal, UpdateSequence, UPDATE_BUSY_MESSAGE,
    UPDATE_POLL_INTERVAL_US, UPDATE_TIMEOUT_MESSAGE, UPDATE_TIMEOUT_US,
};

#[test]
fn wait_constants_and_messages_match_linux() {
    assert_eq!(UPDATE_POLL_INTERVAL_US, 40);
    assert_eq!(UPDATE_TIMEOUT_US, 500_000);
    assert_eq!(UPDATE_TIMEOUT_MESSAGE, "PWM_SW_UPDATE was not cleared");
    assert_eq!(
        UPDATE_BUSY_MESSAGE,
        "PWM_SW_UPDATE is still set, skipping update"
    );
}

#[test]
fn an_in_progress_update_is_refused_by_name() {
    assert_eq!(
        UpdateSequence::start(0x4000_0001, 0x0000_22c0, 0x4000_22c0, false),
        Err(UpdateRefusal::SwUpdateStillSet {
            ctrl: 0x4000_0001,
            mask: 0x4000_0000,
            message: "PWM_SW_UPDATE is still set, skipping update",
        })
    );
}

#[test]
fn ordinary_hardware_enables_before_waiting_for_update_clear() {
    let mut seq = UpdateSequence::start(0, 0x0000_22c0, 0x4000_22c0, false).unwrap();
    assert_eq!(
        seq.advance(0).unwrap(),
        UpdateAction::WriteConfigured(0x0000_22c0)
    );
    assert_eq!(
        seq.advance(0).unwrap(),
        UpdateAction::WriteCommitted(0x4000_22c0)
    );
    assert_eq!(
        seq.advance(0x4000_22c0).unwrap(),
        UpdateAction::WriteEnabled(0xc000_22c0)
    );
    assert_eq!(
        seq.advance(0).unwrap(),
        UpdateAction::PollForUpdateClear {
            interval_us: 40,
            timeout_us: 500_000
        }
    );
    assert_eq!(seq.advance(0x8000_22c0).unwrap(), UpdateAction::Complete);
}

#[test]
fn bypass_hardware_enables_only_after_the_wait() {
    let mut seq = UpdateSequence::start(0, 0x0000_22c0, 0x4000_22c0, true).unwrap();
    assert_eq!(
        seq.advance(0).unwrap(),
        UpdateAction::WriteConfigured(0x0000_22c0)
    );
    assert_eq!(
        seq.advance(0).unwrap(),
        UpdateAction::WriteCommitted(0x4000_22c0)
    );
    assert_eq!(
        seq.advance(0).unwrap(),
        UpdateAction::PollForUpdateClear {
            interval_us: 40,
            timeout_us: 500_000
        }
    );
    assert_eq!(
        seq.advance(0x0000_22c0).unwrap(),
        UpdateAction::WriteEnabled(0x8000_22c0)
    );
    assert_eq!(seq.advance(0).unwrap(), UpdateAction::Complete);
}

#[test]
fn a_poll_that_never_clears_returns_the_named_timeout() {
    let mut seq = UpdateSequence::start(0, 0x22c0, 0x4000_22c0, true).unwrap();
    let _ = seq.advance(0).unwrap();
    let _ = seq.advance(0).unwrap();
    let _ = seq.advance(0).unwrap();
    assert_eq!(
        seq.advance(0x4000_22c0),
        Err(UpdateRefusal::SwUpdateWasNotCleared {
            ctrl: 0x4000_22c0,
            timeout_us: 500_000,
            message: "PWM_SW_UPDATE was not cleared",
        })
    );
}

#[test]
fn update_clear_predicate_checks_only_the_linux_bit() {
    assert!(update_cleared(0x8000_ffff));
    assert!(!update_cleared(0x4000_0000));
    assert!(!update_cleared(0xffff_ffff));
}

#[test]
fn a_refused_check_is_repeated_and_completion_is_final() {
    let mut s = UpdateSequence::start(0, 0x11, 0x4000_0011, false).unwrap();
    for x in [0u32, 0, 0, 0] {
        assert!(s.advance(x).is_ok());
    }
    assert!(s.advance(0x4000_0000).is_err());
    assert!(s.advance(0x4000_0000).is_err());
    assert_eq!(s.advance(0), Ok(UpdateAction::Complete));
    for x in [0u32, 0x4000_0000, u32::MAX] {
        assert_eq!(s.advance(x), Ok(UpdateAction::Complete));
    }
}
