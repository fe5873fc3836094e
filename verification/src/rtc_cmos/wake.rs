//! Suspend, resume, ACPI alarm selection and power-off alarm decisions.

use vstd::prelude::*;
use crate::rtc_cmos::registers::{AIE, PIE, UIE};
use crate::rtc_cmos::control::IRQ_MASK;

verus! {

/// CPU vendors the ACPI alarm choice distinguishes.
#[derive(Debug, Clone, Copy, PartialEq, Eq)]
pub enum CpuVendor {
    Intel,
    Amd,
    Hygon,
    Other,
}

/// The vendor cases and their names.
pub const CPU_VENDORS: [(&'static str, CpuVendor); 4] = [
    ("X86_VENDOR_INTEL", CpuVendor::Intel),
    ("X86_VENDOR_AMD", CpuVendor::Amd),
    ("X86_VENDOR_HYGON", CpuVendor::Hygon),
    ("default", CpuVendor::Other),
];

/// The ACPI alarm is used with an HPET on Intel from BIOS year 2015 and on AMD or Hygon from
/// BIOS year 2021; never on other vendors.
pub open spec fn spec_acpi_alarm_quirk(vendor: CpuVendor, bios_year: u16, hpet_enabled: bool) -> bool {
    hpet_enabled && match vendor {
        CpuVendor::Intel => bios_year >= 2015,
        CpuVendor::Amd | CpuVendor::Hygon => bios_year >= 2021,
        CpuVendor::Other => false,
    }
}

/// Whether to handle the alarm through ACPI.
pub fn use_acpi_alarm_quirk(vendor: CpuVendor, bios_year: u16, hpet_enabled: bool) -> (r: bool)
    ensures
        r == spec_acpi_alarm_quirk(vendor, bios_year, hpet_enabled),
{
    let new_enough = match vendor {
        CpuVendor::Intel => bios_year >= 2015,
        CpuVendor::Amd | CpuVendor::Hygon => bios_year >= 2021,
        CpuVendor::Other => false,
    };
    new_enough && hpet_enabled
}

/// Register B saved and set at suspend, and whether the non-ACPI wake route is needed.
#[derive(Debug, Clone, Copy, PartialEq, Eq)]
pub struct SuspendDecision {
    pub saved_control: u8,
    pub suspend_control: u8,
    pub masked: u8,
    pub enable_non_acpi_wake: bool,
}

/// At suspend every interrupt source is masked, except the alarm when the device may wake
/// the system; other register-B bits stay. A remaining alarm needs the non-ACPI wake route
/// unless the alarm goes through ACPI.
pub open spec fn spec_suspend(control_b: u8, device_may_wakeup: bool, use_acpi_alarm: bool) -> SuspendDecision {
    let mask = if device_may_wakeup {
        IRQ_MASK & !AIE
    } else {
        IRQ_MASK
    };
    let suspend_control = control_b & !mask;
    SuspendDecision {
        saved_control: control_b,
        suspend_control,
        masked: mask,
        enable_non_acpi_wake: suspend_control & AIE != 0 && !use_acpi_alarm,
    }
}

/// Decides register B for suspend.
pub fn suspend_decision(control_b: u8, device_may_wakeup: bool, use_acpi_alarm: bool) -> (r:
    SuspendDecision)
    ensures
        r == spec_suspend(control_b, device_may_wakeup, use_acpi_alarm),
{
    let mask = if device_may_wakeup {
        IRQ_MASK & !AIE
    } else {
        IRQ_MASK
    };
    let suspend_control = control_b & !mask;
    SuspendDecision {
        saved_control: control_b,
        suspend_control,
        masked: mask,
        enable_non_acpi_wake: suspend_control & AIE != 0 && !use_acpi_alarm,
    }
}

/// What to do with the alarm at power-off.
#[derive(Debug, Clone, Copy, PartialEq, Eq)]
pub enum PoweroffDecision {
    RefusedNoProgrammedAlarm { alarm_expires: i64 },
    RefusedAlarmAlreadyEnabled { control_b: u8 },
    CancelOneSecondAlarm { replacement_timestamp: i64 },
    RefusedFutureAlarmStillArmed { alarm_expires: i64, latest_safe: i64 },
    NoChange,
}

/// The power-off decision: nothing to do without a programmed alarm or with the alarm
/// enabled; an alarm one second ahead (which some firmware would fire on at once) is moved to
/// one second in the past; a later one stays armed; an earlier one needs no change.
pub open spec fn spec_poweroff(alarm_expires: i64, now: i64, control_b: u8) -> PoweroffDecision {
    if alarm_expires == 0 {
        PoweroffDecision::RefusedNoProgrammedAlarm { alarm_expires }
    } else if control_b & AIE != 0 {
        PoweroffDecision::RefusedAlarmAlreadyEnabled { control_b }
    } else if alarm_expires == now + 1 {
        PoweroffDecision::CancelOneSecondAlarm { replacement_timestamp: (now - 1) as i64 }
    } else if alarm_expires > now + 1 {
        PoweroffDecision::RefusedFutureAlarmStillArmed {
            alarm_expires,
            latest_safe: (now + 1) as i64,
        }
    } else {
        PoweroffDecision::NoChange
    }
}

/// Decides the alarm at power-off. `now + 1` (and, when the alarm is one second ahead,
/// `now - 1`) must fit in an `i64` once a disabled alarm is programmed.
pub fn poweroff_decision(alarm_expires: i64, now: i64, control_b: u8) -> (r: PoweroffDecision)
    requires
        alarm_expires != 0 && control_b & AIE == 0 ==> now < i64::MAX,
        alarm_expires != 0 && control_b & AIE == 0 && alarm_expires == now + 1 ==> now > i64::MIN,
    ensures
        r == spec_poweroff(alarm_expires, now, control_b),
{
    if alarm_expires == 0 {
        return PoweroffDecision::RefusedNoProgrammedAlarm { alarm_expires };
    }
    if control_b & AIE != 0 {
        return PoweroffDecision::RefusedAlarmAlreadyEnabled { control_b };
    }
    if alarm_expires == now + 1 {
        PoweroffDecision::CancelOneSecondAlarm { replacement_timestamp: now - 1 }
    } else if alarm_expires > now + 1 {
        PoweroffDecision::RefusedFutureAlarmStillArmed { alarm_expires, latest_safe: now + 1 }
    } else {
        PoweroffDecision::NoChange
    }
}

/// The interrupt enables restored from the saved register B at resume; no other bit.
pub fn resume_irq_mask(saved_control: u8) -> (r: u8)
    ensures
        r == saved_control & (PIE | AIE | UIE),
        r & !(PIE | AIE | UIE) == 0,
{
    proof {
        assert(0x40u8 | 0x20u8 | 0x10u8 == 0x70u8) by (bit_vector);
        assert((saved_control & 0x70u8) & !0x70u8 == 0) by (bit_vector);
    }
    saved_control & (PIE | AIE | UIE)
}

/// The saved alarm must be restored when its time or its enabled state changed.
pub fn alarm_restore_needed(
    current_expires: i64,
    current_enabled: bool,
    saved_expires: i64,
    saved_enabled: bool,
) -> (r: bool)
    ensures
        r == (current_expires != saved_expires || current_enabled != saved_enabled),
{
    current_expires != saved_expires || current_enabled != saved_enabled
}

/// An ACPI alarm that was armed at suspend and whose time has come is acknowledged at once.
pub fn acpi_alarm_expired(suspend_control: u8, now: i64, alarm_expires: i64, use_acpi_alarm: bool) -> (r: bool)
    ensures
        r == (suspend_control & AIE != 0 && now >= alarm_expires && use_acpi_alarm),
{
    suspend_control & AIE != 0 && now >= alarm_expires && use_acpi_alarm
}

} // verus!
