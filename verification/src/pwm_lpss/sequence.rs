//! LPSS PWM update/wait sequencing as a pure state machine: the caller performs each returned
//! action and feeds back the register value it samples.

use vstd::prelude::*;
use crate::pwm_lpss::regs::{PWM_ENABLE, PWM_SW_UPDATE};

verus! {

/// Poll interval while waiting for SW_UPDATE to clear.
pub const UPDATE_POLL_INTERVAL_US: u32 = 40;
/// Total update budget: 500 ms.
pub const UPDATE_TIMEOUT_US: u32 = 500_000;
/// Diagnostic for an update that never completed.
pub const UPDATE_TIMEOUT_MESSAGE: &'static str = "PWM_SW_UPDATE was not cleared";
/// Diagnostic for an update refused because a previous one is still pending.
pub const UPDATE_BUSY_MESSAGE: &'static str = "PWM_SW_UPDATE is still set, skipping update";

/// Why an update sequence refused to advance.
#[derive(Debug, Clone, Copy, PartialEq, Eq)]
pub enum UpdateRefusal {
    SwUpdateStillSet { ctrl: u32, mask: u32, message: &'static str },
    SwUpdateWasNotCleared { ctrl: u32, timeout_us: u32, message: &'static str },
}

/// The caller-visible actions of a prepare-and-enable.
#[derive(Debug, Clone, Copy, PartialEq, Eq)]
pub enum UpdateAction {
    WriteConfigured(u32),
    WriteCommitted(u32),
    WriteEnabled(u32),
    PollForUpdateClear { interval_us: u32, timeout_us: u32 },
    Complete,
}

/// The write-and-wait state machine. It never accesses hardware.
#[derive(Debug, Clone, Copy, PartialEq, Eq)]
pub struct UpdateSequence {
    configured: u32,
    committed: u32,
    bypass: bool,
    stage: u8,
}

/// The action taken at `stage`, given the sampled register.
///
/// Both kinds of hardware first write the configured word and then the committed word. Ordinary
/// hardware then enables (a fresh read-modify-write of the sample) and waits; bypass hardware
/// waits first and enables only after the wait. The stage after the wait refuses if the sample
/// still shows SW_UPDATE. Every later stage reports completion.
pub open spec fn spec_advance(
    bypass: bool,
    stage: u8,
    configured: u32,
    committed: u32,
    sampled: u32,
) -> Result<UpdateAction, UpdateRefusal> {
    let poll = UpdateAction::PollForUpdateClear {
        interval_us: UPDATE_POLL_INTERVAL_US,
        timeout_us: UPDATE_TIMEOUT_US,
    };
    if stage == 0 {
        Ok(UpdateAction::WriteConfigured(configured))
    } else if stage == 1 {
        Ok(UpdateAction::WriteCommitted(committed))
    } else if !bypass && stage == 2 {
        Ok(UpdateAction::WriteEnabled(sampled | PWM_ENABLE))
    } else if (!bypass && stage == 3) || (bypass && stage == 2) {
        Ok(poll)
    } else if ((!bypass && stage == 4) || (bypass && stage == 3)) && sampled & PWM_SW_UPDATE != 0 {
        Err(
            UpdateRefusal::SwUpdateWasNotCleared {
                ctrl: sampled,
                timeout_us: UPDATE_TIMEOUT_US,
                message: UPDATE_TIMEOUT_MESSAGE,
            },
        )
    } else if bypass && stage == 3 {
        Ok(UpdateAction::WriteEnabled(sampled | PWM_ENABLE))
    } else {
        Ok(UpdateAction::Complete)
    }
}

impl UpdateSequence {
    /// The configuration word written first.
    pub closed spec fn configured(self) -> u32 {
        self.configured
    }

    /// The commit word written second.
    pub closed spec fn committed(self) -> u32 {
        self.committed
    }

    /// Whether the hardware enables only after the wait.
    pub closed spec fn bypass(self) -> bool {
        self.bypass
    }

    /// How many actions have been handed out (saturating at 255).
    pub closed spec fn stage(self) -> u8 {
        self.stage
    }

    /// Start only when SW_UPDATE is clear in the sampled register.
    pub fn start(sampled_ctrl: u32, configured: u32, committed: u32, bypass: bool) -> (result:
        Result<Self, UpdateRefusal>)
        ensures
            match result {
                Ok(s) => sampled_ctrl & PWM_SW_UPDATE == 0 && s.configured() == configured
                    && s.committed() == committed && s.bypass() == bypass && s.stage() == 0,
                Err(e) => sampled_ctrl & PWM_SW_UPDATE != 0 && e == (UpdateRefusal::SwUpdateStillSet {
                    ctrl: sampled_ctrl,
                    mask: PWM_SW_UPDATE,
                    message: UPDATE_BUSY_MESSAGE,
                }),
            },
    {
        if sampled_ctrl & PWM_SW_UPDATE != 0 {
            return Err(
                UpdateRefusal::SwUpdateStillSet {
                    ctrl: sampled_ctrl,
                    mask: PWM_SW_UPDATE,
                    message: UPDATE_BUSY_MESSAGE,
                },
            );
        }
        Ok(Self { configured, committed, bypass, stage: 0 })
    }

    /// Return the next action. `sampled_ctrl` is consulted only by the enable write (a fresh
    /// read-modify-write) and by the check after the wait. A refusal leaves the stage unchanged;
    /// an action advances it by one, saturating.
    pub fn advance(&mut self, sampled_ctrl: u32) -> (result: Result<UpdateAction, UpdateRefusal>)
        ensures
            result == spec_advance(
                old(self).bypass(),
                old(self).stage(),
                old(self).configured(),
                old(self).committed(),
                sampled_ctrl,
            ),
            final(self).configured() == old(self).configured(),
            final(self).committed() == old(self).committed(),
            final(self).bypass() == old(self).bypass(),
            final(self).stage() == (if result is Ok {
                if old(self).stage() < 255 {
                    (old(self).stage() + 1) as u8
                } else {
                    255u8
                }
            } else {
                old(self).stage()
            }),
    {
        let stage = self.stage;
        let action = if stage == 0 {
            UpdateAction::WriteConfigured(self.configured)
        } else if stage == 1 {
            UpdateAction::WriteCommitted(self.committed)
        } else if !self.bypass && stage == 2 {
            UpdateAction::WriteEnabled(sampled_ctrl | PWM_ENABLE)
        } else if (!self.bypass && stage == 3) || (self.bypass && stage == 2) {
            UpdateAction::PollForUpdateClear {
                interval_us: UPDATE_POLL_INTERVAL_US,
                timeout_us: UPDATE_TIMEOUT_US,
            }
        } else if ((!self.bypass && stage == 4) || (self.bypass && stage == 3)) && sampled_ctrl
            & PWM_SW_UPDATE != 0 {
            return Err(
                UpdateRefusal::SwUpdateWasNotCleared {
                    ctrl: sampled_ctrl,
                    timeout_us: UPDATE_TIMEOUT_US,
                    message: UPDATE_TIMEOUT_MESSAGE,
                },
            );
        } else if self.bypass && stage == 3 {
            UpdateAction::WriteEnabled(sampled_ctrl | PWM_ENABLE)
        } else {
            UpdateAction::Complete
        };
        self.stage = self.stage.saturating_add(1);
        Ok(action)
    }
}

/// Whether the update bit has cleared: the success predicate of the wait.
pub fn update_cleared(ctrl: u32) -> (cleared: bool)
    ensures
        cleared == (ctrl & PWM_SW_UPDATE == 0),
{
    ctrl & PWM_SW_UPDATE == 0
}

/// A started sequence, advanced with samples whose SW_UPDATE is clear, yields the configured
/// write, the commit write, then the enable and the wait in the hardware's order (ordinary
/// hardware enables before waiting, bypass hardware waits before enabling), then completion.
pub proof fn lemma_update_order(configured: u32, committed: u32, bypass: bool, samples: Seq<u32>)
    requires
        samples.len() == 5,
        forall|i: int| 0 <= i < 5 ==> #[trigger] samples[i] & PWM_SW_UPDATE == 0,
    ensures
        spec_advance(bypass, 0, configured, committed, samples[0]) == Ok::<
            UpdateAction,
            UpdateRefusal,
        >(UpdateAction::WriteConfigured(configured)),
        spec_advance(bypass, 1, configured, committed, samples[1]) == Ok::<
            UpdateAction,
            UpdateRefusal,
        >(UpdateAction::WriteCommitted(committed)),
        !bypass ==> spec_advance(bypass, 2, configured, committed, samples[2]) == Ok::<
            UpdateAction,
            UpdateRefusal,
        >(UpdateAction::WriteEnabled(samples[2] | PWM_ENABLE)),
        bypass ==> spec_advance(bypass, 2, configured, committed, samples[2]) is Ok
            && spec_advance(bypass, 2, configured, committed, samples[2])->Ok_0 is PollForUpdateClear,
        !bypass ==> spec_advance(bypass, 3, configured, committed, samples[3]) is Ok
            && spec_advance(bypass, 3, configured, committed, samples[3])->Ok_0 is PollForUpdateClear,
        bypass ==> spec_advance(bypass, 3, configured, committed, samples[3]) == Ok::<
            UpdateAction,
            UpdateRefusal,
        >(UpdateAction::WriteEnabled(samples[3] | PWM_ENABLE)),
        spec_advance(bypass, 4, configured, committed, samples[4]) == Ok::<
            UpdateAction,
            UpdateRefusal,
        >(UpdateAction::Complete),
{
    assert(samples[3] & PWM_SW_UPDATE == 0);
    assert(samples[4] & PWM_SW_UPDATE == 0);
}

/// The stage after an outcome: one more after an action (saturating), the same after a
/// refusal; as `advance` moves it.
pub open spec fn next_stage(stage: u8, r: Result<UpdateAction, UpdateRefusal>) -> u8 {
    if r is Ok {
        if stage < 255 {
            (stage + 1) as u8
        } else {
            255u8
        }
    } else {
        stage
    }
}

/// The outcomes of advancing a sequence at `stage` with `samples`, one call per sample in turn,
/// each as `advance` gives it.
pub open spec fn run_outcomes(
    bypass: bool,
    stage: u8,
    configured: u32,
    committed: u32,
    samples: Seq<u32>,
) -> Seq<Result<UpdateAction, UpdateRefusal>>
    decreases samples.len(),
{
    if samples.len() == 0 {
        Seq::empty()
    } else {
        let r = spec_advance(bypass, stage, configured, committed, samples[0]);
        seq![r] + run_outcomes(
            bypass,
            next_stage(stage, r),
            configured,
            committed,
            samples.drop_first(),
        )
    }
}

/// The check after the wait: a sample still showing SW_UPDATE is refused as a timeout;
/// otherwise bypass hardware enables and ordinary hardware completes.
pub open spec fn check_outcome(bypass: bool, sampled: u32) -> Result<UpdateAction, UpdateRefusal> {
    if sampled & PWM_SW_UPDATE != 0 {
        Err(
            UpdateRefusal::SwUpdateWasNotCleared {
                ctrl: sampled,
                timeout_us: UPDATE_TIMEOUT_US,
                message: UPDATE_TIMEOUT_MESSAGE,
            },
        )
    } else if bypass {
        Ok(UpdateAction::WriteEnabled(sampled | PWM_ENABLE))
    } else {
        Ok(UpdateAction::Complete)
    }
}

/// The stage of the check after the wait.
pub open spec fn check_stage(bypass: bool) -> u8 {
    if bypass {
        3
    } else {
        4
    }
}

proof fn lemma_finished_run(bypass: bool, stage: u8, configured: u32, committed: u32, samples: Seq<u32>)
    requires
        stage > check_stage(bypass),
    ensures
        run_outcomes(bypass, stage, configured, committed, samples).len() == samples.len(),
        forall|i: int|
            0 <= i < samples.len() ==> #[trigger] run_outcomes(
                bypass,
                stage,
                configured,
                committed,
                samples,
            )[i] == Ok::<UpdateAction, UpdateRefusal>(UpdateAction::Complete),
    decreases samples.len(),
{
    if samples.len() > 0 {
        let r = spec_advance(bypass, stage, configured, committed, samples[0]);
        assert(r == Ok::<UpdateAction, UpdateRefusal>(UpdateAction::Complete));
        lemma_finished_run(bypass, next_stage(stage, r), configured, committed, samples.drop_first());
    }
}

proof fn lemma_run_len(bypass: bool, stage: u8, configured: u32, committed: u32, samples: Seq<u32>)
    ensures
        run_outcomes(bypass, stage, configured, committed, samples).len() == samples.len(),
    decreases samples.len(),
{
    if samples.len() > 0 {
        let r = spec_advance(bypass, stage, configured, committed, samples[0]);
        lemma_run_len(bypass, next_stage(stage, r), configured, committed, samples.drop_first());
    }
}

/// Over any run: once a call reports completion, every later call reports completion too; and a
/// refusal (a timeout at the check after the wait) leaves the sequence where it was, so the next
/// call makes the same check again on its own sample.
pub proof fn lemma_run_after_complete_and_refusal(
    bypass: bool,
    stage: u8,
    configured: u32,
    committed: u32,
    samples: Seq<u32>,
)
    ensures
        ({
            let out = run_outcomes(bypass, stage, configured, committed, samples);
            &&& out.len() == samples.len()
            &&& forall|i: int, j: int|
                #![trigger out[i], out[j]]
                0 <= i < j < samples.len() && out[i] == Ok::<UpdateAction, UpdateRefusal>(
                    UpdateAction::Complete,
                ) ==> out[j] == Ok::<UpdateAction, UpdateRefusal>(UpdateAction::Complete)
            &&& forall|i: int|
                0 <= i < samples.len() && (#[trigger] out[i]) is Err ==> out[i] == check_outcome(
                    bypass,
                    samples[i],
                ) && (i + 1 < samples.len() ==> out[i + 1] == check_outcome(bypass, samples[i + 1]))
        }),
    decreases samples.len(),
{
    lemma_run_len(bypass, stage, configured, committed, samples);
    if samples.len() > 0 {
        let out = run_outcomes(bypass, stage, configured, committed, samples);
        let r = spec_advance(bypass, stage, configured, committed, samples[0]);
        let st2 = next_stage(stage, r);
        let rest = samples.drop_first();
        let tail = run_outcomes(bypass, st2, configured, committed, rest);
        lemma_run_after_complete_and_refusal(bypass, st2, configured, committed, rest);
        assert(out == seq![r] + tail);
        if r == Ok::<UpdateAction, UpdateRefusal>(UpdateAction::Complete) {
            assert(st2 > check_stage(bypass));
            lemma_finished_run(bypass, st2, configured, committed, rest);
        }
        if r is Err {
            assert(st2 == stage && stage == check_stage(bypass));
            if rest.len() > 0 {
                assert(tail[0] == spec_advance(bypass, stage, configured, committed, rest[0]));
                assert(rest[0] == samples[1]);
            }
        }
        assert forall|i: int, j: int|
            #![trigger out[i], out[j]]
            0 <= i < j < samples.len() && out[i] == Ok::<UpdateAction, UpdateRefusal>(
                UpdateAction::Complete,
            ) implies out[j] == Ok::<UpdateAction, UpdateRefusal>(UpdateAction::Complete) by {
            if i == 0 {
                assert(out[j] == tail[j - 1]);
            } else {
                assert(out[i] == tail[i - 1] && out[j] == tail[j - 1]);
                assert(rest[i - 1] == samples[i]);
            }
        }
        assert forall|i: int|
            0 <= i < samples.len() && (#[trigger] out[i]) is Err implies out[i] == check_outcome(
                bypass,
                samples[i],
            ) && (i + 1 < samples.len() ==> out[i + 1] == check_outcome(bypass, samples[i + 1])) by {
            if i > 0 {
                assert(out[i] == tail[i - 1]);
                assert(rest[i - 1] == samples[i]);
                if i + 1 < samples.len() {
                    assert(out[i + 1] == tail[i]);
                    assert(rest[i] == samples[i + 1]);
                }
            } else {
                if 1 < samples.len() {
                    assert(out[1] == tail[0]);
                }
            }
        }
    }
}

/// A run of any length from a freshly started sequence (stage 0, as `start` leaves it): the
/// configured write, the commit write, then for ordinary hardware the enable (from its sample)
/// and the wait, for bypass hardware the wait; then the check after the wait on the next
/// sample. A refused check is made again on each later sample until one passes; once the check
/// passes every later call completes (bypass hardware first enables, from the passing sample).
pub proof fn lemma_run_from_start(bypass: bool, configured: u32, committed: u32, samples: Seq<u32>)
    requires
        samples.len() >= check_stage(bypass) + 1,
    ensures
        ({
            let out = run_outcomes(bypass, 0, configured, committed, samples);
            let poll = UpdateAction::PollForUpdateClear {
                interval_us: UPDATE_POLL_INTERVAL_US,
                timeout_us: UPDATE_TIMEOUT_US,
            };
            let k = check_stage(bypass) as int;
            &&& out.len() == samples.len()
            &&& out[0] == Ok::<UpdateAction, UpdateRefusal>(UpdateAction::WriteConfigured(configured))
            &&& out[1] == Ok::<UpdateAction, UpdateRefusal>(UpdateAction::WriteCommitted(committed))
            &&& !bypass ==> out[2] == Ok::<UpdateAction, UpdateRefusal>(
                UpdateAction::WriteEnabled(samples[2] | PWM_ENABLE),
            ) && out[3] == Ok::<UpdateAction, UpdateRefusal>(poll)
            &&& bypass ==> out[2] == Ok::<UpdateAction, UpdateRefusal>(poll)
            &&& out[k] == check_outcome(bypass, samples[k])
            &&& forall|i: int|
                k <= i < samples.len() && (forall|t: int| k <= t < i ==> (#[trigger] out[t]) is Err)
                    ==> #[trigger] out[i] == check_outcome(bypass, samples[i])
            &&& forall|i: int, j: int|
                #![trigger out[i], out[j]]
                k <= i < j < samples.len() && out[i] is Ok ==> out[j] == Ok::<
                    UpdateAction,
                    UpdateRefusal,
                >(UpdateAction::Complete)
        }),
{
    lemma_run_len(bypass, 0, configured, committed, samples);
    let c = configured;
    let m = committed;
    let k = check_stage(bypass) as int;
    let s1 = samples.drop_first();
    let s2 = s1.drop_first();
    let s3 = s2.drop_first();
    let s4 = s3.drop_first();
    assert(s1[0] == samples[1] && s2[0] == samples[2] && s3[0] == samples[3]);
    let out = run_outcomes(bypass, 0, c, m, samples);
    let o1 = run_outcomes(bypass, 1, c, m, s1);
    let o2 = run_outcomes(bypass, 2, c, m, s2);
    let o3 = run_outcomes(bypass, 3, c, m, s3);
    assert(out == seq![spec_advance(bypass, 0, c, m, samples[0])] + o1);
    assert(o1 == seq![spec_advance(bypass, 1, c, m, s1[0])] + o2);
    assert(o2 == seq![spec_advance(bypass, 2, c, m, s2[0])] + o3);
    assert(out[0] == spec_advance(bypass, 0, c, m, samples[0]));
    assert(out[1] == o1[0]);
    assert(out[2] == o2[0]);
    assert(out[3] == o3[0]);
    assert(o3[0] == spec_advance(bypass, 3, c, m, s3[0]));
    // The run from the check onwards.
    let rest = samples.subrange(k, samples.len() as int);
    let tail = run_outcomes(bypass, k as u8, c, m, rest);
    if !bypass {
        assert(s4[0] == samples[4]);
        let o4 = run_outcomes(bypass, 4, c, m, s4);
        assert(o3 == seq![spec_advance(bypass, 3, c, m, s3[0])] + o4);
        assert(s4 =~= rest);
        assert forall|t: int| 0 <= t < tail.len() implies out[k + t] == #[trigger] tail[t] by {
            assert(out[k + t] == o4[t]);
        }
    } else {
        assert(s3 =~= rest);
        assert forall|t: int| 0 <= t < tail.len() implies out[k + t] == #[trigger] tail[t] by {
            assert(out[k + t] == o3[t]);
        }
    }
    lemma_run_len(bypass, k as u8, c, m, rest);
    lemma_check_run(bypass, c, m, rest);
    assert forall|i: int|
        k <= i < samples.len() && (forall|t: int| k <= t < i ==> (#[trigger] out[t]) is Err)
            implies #[trigger] out[i] == check_outcome(bypass, samples[i]) by {
        assert(out[i] == tail[i - k]);
        assert(rest[i - k] == samples[i]);
        assert forall|t: int| 0 <= t < i - k implies (#[trigger] tail[t]) is Err by {
            assert(out[k + t] == tail[t]);
        }
    }
    assert forall|i: int, j: int|
        #![trigger out[i], out[j]]
        k <= i < j < samples.len() && out[i] is Ok implies out[j] == Ok::<
            UpdateAction,
            UpdateRefusal,
        >(UpdateAction::Complete) by {
        assert(out[i] == tail[i - k] && out[j] == tail[j - k]);
    }
    assert(out[k] == tail[0]);
    assert(rest[0] == samples[k]);
}

/// A run that starts at the check: each call repeats the check while the ones before it were
/// refused, and after a passing check every call completes.
proof fn lemma_check_run(bypass: bool, configured: u32, committed: u32, rest: Seq<u32>)
    ensures
        ({
            let tail = run_outcomes(bypass, check_stage(bypass), configured, committed, rest);
            &&& forall|i: int|
                0 <= i < rest.len() && (forall|t: int| 0 <= t < i ==> (#[trigger] tail[t]) is Err)
                    ==> #[trigger] tail[i] == check_outcome(bypass, rest[i])
            &&& forall|i: int, j: int|
                #![trigger tail[i], tail[j]]
                0 <= i < j < rest.len() && tail[i] is Ok ==> tail[j] == Ok::<
                    UpdateAction,
                    UpdateRefusal,
                >(UpdateAction::Complete)
        }),
    decreases rest.len(),
{
    let k = check_stage(bypass);
    lemma_run_len(bypass, k, configured, committed, rest);
    if rest.len() > 0 {
        let tail = run_outcomes(bypass, k, configured, committed, rest);
        let r = spec_advance(bypass, k, configured, committed, rest[0]);
        assert(r == check_outcome(bypass, rest[0]));
        let r2 = rest.drop_first();
        let st2 = next_stage(k, r);
        let t2 = run_outcomes(bypass, st2, configured, committed, r2);
        assert(tail == seq![r] + t2);
        lemma_run_len(bypass, st2, configured, committed, r2);
        if r is Err {
            assert(st2 == k);
            lemma_check_run(bypass, configured, committed, r2);
            assert forall|i: int|
                0 <= i < rest.len() && (forall|t: int| 0 <= t < i ==> (#[trigger] tail[t]) is Err)
                    implies #[trigger] tail[i] == check_outcome(bypass, rest[i]) by {
                if i > 0 {
                    assert(tail[i] == t2[i - 1]);
                    assert(r2[i - 1] == rest[i]);
                    assert forall|t: int| 0 <= t < i - 1 implies (#[trigger] t2[t]) is Err by {
                        assert(tail[t + 1] == t2[t]);
                    }
                }
            }
            assert forall|i: int, j: int|
                #![trigger tail[i], tail[j]]
                0 <= i < j < rest.len() && tail[i] is Ok implies tail[j] == Ok::<
                    UpdateAction,
                    UpdateRefusal,
                >(UpdateAction::Complete) by {
                assert(i > 0);
                assert(tail[i] == t2[i - 1] && tail[j] == t2[j - 1]);
            }
        } else {
            assert(st2 > k);
            lemma_finished_run(bypass, st2, configured, committed, r2);
            assert forall|i: int|
                0 <= i < rest.len() && (forall|t: int| 0 <= t < i ==> (#[trigger] tail[t]) is Err)
                    implies #[trigger] tail[i] == check_outcome(bypass, rest[i]) by {
                if i > 0 {
                    assert(tail[0] is Err);
                }
            }
            assert forall|i: int, j: int|
                #![trigger tail[i], tail[j]]
                0 <= i < j < rest.len() && tail[i] is Ok implies tail[j] == Ok::<
                    UpdateAction,
                    UpdateRefusal,
                >(UpdateAction::Complete) by {
                assert(tail[j] == t2[j - 1]);
            }
        }
    }
}

} // verus!
