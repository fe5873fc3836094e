//! The order of actions that change the RTC's interrupt controls, for the caller to carry out.

use vstd::prelude::*;
use crate::rtc_cmos::registers::{AIE, INTR_FLAGS};

verus! {

/// One action for the caller to carry out.
#[derive(Debug, Clone, Copy, PartialEq, Eq)]
pub enum ControlAction {
    ReadInterruptFlags { register: u8 },
    WriteControl { value: u8 },
    HpetSet { mask: u8 },
    HpetMask { mask: u8 },
    AcpiWakeOn,
    AcpiWakeOff,
}

/// A list of at most five actions, in order.
#[derive(Debug, Clone, Copy, PartialEq, Eq)]
pub struct ControlActions {
    actions: [Option<ControlAction>; 5],
    len: usize,
}

impl ControlActions {
    #[verifier::type_invariant]
    spec fn well_formed(self) -> bool {
        &&& self.len <= 5
        &&& forall|i: int| 0 <= i < self.len ==> (#[trigger] self.actions@[i]) is Some
        &&& forall|i: int| self.len <= i < 5 ==> (#[trigger] self.actions@[i]) is None
    }

    /// The five slots: the actions in order, then empty slots.
    pub closed spec fn slots(self) -> Seq<Option<ControlAction>> {
        self.actions@
    }

    /// The actions, in order.
    pub closed spec fn actions_seq(self) -> Seq<ControlAction> {
        Seq::new(self.len as nat, |i: int| self.actions@[i]->0)
    }

    /// Number of actions.
    pub fn len(&self) -> (r: usize)
        ensures
            r == self.actions_seq().len(),
    {
        self.len
    }

    /// Whether there are no actions.
    pub fn is_empty(&self) -> (r: bool)
        ensures
            r == (self.actions_seq().len() == 0),
    {
        self.len == 0
    }

    /// The action at `index`, if there is one.
    pub fn get(&self, index: usize) -> (r: Option<ControlAction>)
        ensures
            r == (if index < self.actions_seq().len() {
                Some(self.actions_seq()[index as int])
            } else {
                None
            }),
    {
        proof {
            use_type_invariant(self);
        }
        if index < self.len {
            self.actions[index]
        } else {
            None
        }
    }
}

fn empty_actions() -> (r: ControlActions)
    ensures
        r.actions_seq() == Seq::<ControlAction>::empty(),
        r.slots() == Seq::new(5, |i: int| None::<ControlAction>),
{
    let r = ControlActions { actions: [None, None, None, None, None], len: 0 };
    assert(r.actions_seq() =~= Seq::<ControlAction>::empty());
    assert(r.slots() =~= Seq::new(5, |i: int| None::<ControlAction>));
    r
}

fn push(list: ControlActions, action: ControlAction) -> (r: ControlActions)
    requires
        list.actions_seq().len() < 5,
    ensures
        r.actions_seq() == list.actions_seq().push(action),
{
    proof {
        use_type_invariant(&list);
    }
    let mut actions = list.actions;
    actions[list.len] = Some(action);
    let r = ControlActions { actions, len: list.len + 1 };
    assert(r.actions_seq() =~= list.actions_seq().push(action));
    r
}

/// The actions that enable interrupts: read register C to flush old flags, write register B
/// with `mask` set, set the HPET emulation when it is used, turn ACPI wake on when the alarm is
/// enabled through ACPI with a wake hook, and read register C again.
pub open spec fn spec_enable_actions(
    control_b: u8,
    mask: u8,
    use_hpet_alarm: bool,
    use_acpi_alarm: bool,
    has_wake_hook: bool,
) -> Seq<ControlAction> {
    seq![
        ControlAction::ReadInterruptFlags { register: INTR_FLAGS },
        ControlAction::WriteControl { value: control_b | mask },
    ] + (if use_hpet_alarm {
        seq![ControlAction::HpetSet { mask }]
    } else {
        Seq::empty()
    }) + (if mask & AIE != 0 && use_acpi_alarm && has_wake_hook {
        seq![ControlAction::AcpiWakeOn]
    } else {
        Seq::empty()
    }) + seq![ControlAction::ReadInterruptFlags { register: INTR_FLAGS }]
}

/// The actions that disable interrupts: write register B with `mask` cleared, mask the HPET
/// emulation when it is used, turn ACPI wake off when the alarm is disabled through ACPI with a
/// wake hook, and read register C to acknowledge what is pending.
pub open spec fn spec_disable_actions(
    control_b: u8,
    mask: u8,
    use_hpet_alarm: bool,
    use_acpi_alarm: bool,
    has_wake_hook: bool,
) -> Seq<ControlAction> {
    seq![ControlAction::WriteControl { value: control_b & !mask }] + (if use_hpet_alarm {
        seq![ControlAction::HpetMask { mask }]
    } else {
        Seq::empty()
    }) + (if mask & AIE != 0 && use_acpi_alarm && has_wake_hook {
        seq![ControlAction::AcpiWakeOff]
    } else {
        Seq::empty()
    }) + seq![ControlAction::ReadInterruptFlags { register: INTR_FLAGS }]
}

/// Lists the actions that enable the interrupts in `mask`.
pub fn irq_enable_actions(
    control_b: u8,
    mask: u8,
    use_hpet_alarm: bool,
    use_acpi_alarm: bool,
    has_wake_hook: bool,
) -> (r: ControlActions)
    ensures
        r.actions_seq() == spec_enable_actions(
            control_b,
            mask,
            use_hpet_alarm,
            use_acpi_alarm,
            has_wake_hook,
        ),
{
    let mut out = push(empty_actions(), ControlAction::ReadInterruptFlags { register: INTR_FLAGS });
    out = push(out, ControlAction::WriteControl { value: control_b | mask });
    if use_hpet_alarm {
        out = push(out, ControlAction::HpetSet { mask });
    }
    if mask & AIE != 0 && use_acpi_alarm && has_wake_hook {
        out = push(out, ControlAction::AcpiWakeOn);
    }
    let r = push(out, ControlAction::ReadInterruptFlags { register: INTR_FLAGS });
    assert(r.actions_seq() =~= spec_enable_actions(
        control_b,
        mask,
        use_hpet_alarm,
        use_acpi_alarm,
        has_wake_hook,
    ));
    r
}

/// Lists the actions that disable the interrupts in `mask`.
pub fn irq_disable_actions(
    control_b: u8,
    mask: u8,
    use_hpet_alarm: bool,
    use_acpi_alarm: bool,
    has_wake_hook: bool,
) -> (r: ControlActions)
    ensures
        r.actions_seq() == spec_disable_actions(
            control_b,
            mask,
            use_hpet_alarm,
            use_acpi_alarm,
            has_wake_hook,
        ),
{
    let mut out = push(empty_actions(), ControlAction::WriteControl { value: control_b & !mask });
    if use_hpet_alarm {
        out = push(out, ControlAction::HpetMask { mask });
    }
    if mask & AIE != 0 && use_acpi_alarm && has_wake_hook {
        out = push(out, ControlAction::AcpiWakeOff);
    }
    let r = push(out, ControlAction::ReadInterruptFlags { register: INTR_FLAGS });
    assert(r.actions_seq() =~= spec_disable_actions(
        control_b,
        mask,
        use_hpet_alarm,
        use_acpi_alarm,
        has_wake_hook,
    ));
    r
}

/// What the enable plan holds: it begins and ends by reading register C and writes register B
/// second, with `mask` set and every other bit kept; it sets the HPET emulation exactly when the
/// HPET alarm is used and turns ACPI wake on exactly when the alarm interrupt is being enabled
/// through the ACPI alarm with a wake hook; it never masks the HPET nor turns ACPI wake off.
pub proof fn lemma_enable_plan_contents(
    control_b: u8,
    mask: u8,
    use_hpet_alarm: bool,
    use_acpi_alarm: bool,
    has_wake_hook: bool,
)
    ensures
        ({
            let p = spec_enable_actions(control_b, mask, use_hpet_alarm, use_acpi_alarm, has_wake_hook);
            &&& 3 <= p.len() <= 5
            &&& p[0] == ControlAction::ReadInterruptFlags { register: INTR_FLAGS }
            &&& p.last() == ControlAction::ReadInterruptFlags { register: INTR_FLAGS }
            &&& p[1] matches ControlAction::WriteControl { value } && value & mask == mask && value
                & !mask == control_b & !mask
            &&& p.contains(ControlAction::HpetSet { mask }) <==> use_hpet_alarm
            &&& p.contains(ControlAction::AcpiWakeOn) <==> (use_acpi_alarm && mask & AIE != 0
                && has_wake_hook)
            &&& !p.contains(ControlAction::AcpiWakeOff)
            &&& forall|m: u8| !p.contains(ControlAction::HpetMask { mask: m })
        }),
{
    let p = spec_enable_actions(control_b, mask, use_hpet_alarm, use_acpi_alarm, has_wake_hook);
    assert((control_b | mask) & mask == mask && (control_b | mask) & !mask == control_b & !mask)
        by (bit_vector);
    let read = ControlAction::ReadInterruptFlags { register: INTR_FLAGS };
    let write = ControlAction::WriteControl { value: control_b | mask };
    let acpi = mask & AIE != 0 && use_acpi_alarm && has_wake_hook;
    if use_hpet_alarm && acpi {
        assert(p =~= seq![read, write, ControlAction::HpetSet { mask }, ControlAction::AcpiWakeOn, read]);
        assert(p[2] == ControlAction::HpetSet { mask });
        assert(p[3] == ControlAction::AcpiWakeOn);
    } else if use_hpet_alarm {
        assert(p =~= seq![read, write, ControlAction::HpetSet { mask }, read]);
        assert(p[2] == ControlAction::HpetSet { mask });
    } else if acpi {
        assert(p =~= seq![read, write, ControlAction::AcpiWakeOn, read]);
        assert(p[2] == ControlAction::AcpiWakeOn);
    } else {
        assert(p =~= seq![read, write, read]);
    }
}

/// What the disable plan holds: it writes register B first, with `mask` cleared and every
/// other bit kept, and ends by reading register C; it masks the HPET emulation exactly when the
/// HPET alarm is used and turns ACPI wake off exactly when the alarm interrupt is being
/// disabled through the ACPI alarm with a wake hook; it never sets the HPET nor turns ACPI wake
/// on.
pub proof fn lemma_disable_plan_contents(
    control_b: u8,
    mask: u8,
    use_hpet_alarm: bool,
    use_acpi_alarm: bool,
    has_wake_hook: bool,
)
    ensures
        ({
            let p = spec_disable_actions(control_b, mask, use_hpet_alarm, use_acpi_alarm, has_wake_hook);
            &&& 2 <= p.len() <= 4
            &&& p[0] matches ControlAction::WriteControl { value } && value & mask == 0 && value
                & !mask == control_b & !mask
            &&& p.last() == ControlAction::ReadInterruptFlags { register: INTR_FLAGS }
            &&& p.contains(ControlAction::HpetMask { mask }) <==> use_hpet_alarm
            &&& p.contains(ControlAction::AcpiWakeOff) <==> (use_acpi_alarm && mask & AIE != 0
                && has_wake_hook)
            &&& !p.contains(ControlAction::AcpiWakeOn)
            &&& forall|m: u8| !p.contains(ControlAction::HpetSet { mask: m })
        }),
{
    let p = spec_disable_actions(control_b, mask, use_hpet_alarm, use_acpi_alarm, has_wake_hook);
    assert((control_b & !mask) & mask == 0 && (control_b & !mask) & !mask == control_b & !mask)
        by (bit_vector);
    let read = ControlAction::ReadInterruptFlags { register: INTR_FLAGS };
    let write = ControlAction::WriteControl { value: control_b & !mask };
    let acpi = mask & AIE != 0 && use_acpi_alarm && has_wake_hook;
    if use_hpet_alarm && acpi {
        assert(p =~= seq![write, ControlAction::HpetMask { mask }, ControlAction::AcpiWakeOff, read]);
        assert(p[1] == ControlAction::HpetMask { mask });
        assert(p[2] == ControlAction::AcpiWakeOff);
    } else if use_hpet_alarm {
        assert(p =~= seq![write, ControlAction::HpetMask { mask }, read]);
        assert(p[1] == ControlAction::HpetMask { mask });
    } else if acpi {
        assert(p =~= seq![write, ControlAction::AcpiWakeOff, read]);
        assert(p[1] == ControlAction::AcpiWakeOff);
    } else {
        assert(p =~= seq![write, read]);
    }
}

} // verus!
