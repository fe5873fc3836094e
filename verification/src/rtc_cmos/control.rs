//! Register-B interrupt controls and the handling of register C.

use vstd::prelude::*;
use crate::rtc_cmos::registers::{AF, AIE, HOUR_24, IRQF, PF, PIE, UF, UIE};

verus! {

/// The register-C source flags: periodic, alarm and update-ended.
pub const IRQ_MASK: u8 = PF | AF | UF;

/// Default periodic interrupt rate, in hertz.
pub const DEFAULT_PERIODIC_FREQUENCY_HZ: u32 = 1024;

/// Default register-A setting: the 32.768 kHz time base and a 1024 Hz periodic rate.
pub const DEFAULT_FREQUENCY_SELECT: u8 = 0x20 | 0x06;

/// The register-B interrupt enables and their names.
pub const INTERRUPT_ENABLE_BITS: [(&'static str, u8); 3] = [
    ("RTC_PIE", PIE),
    ("RTC_AIE", AIE),
    ("RTC_UIE", UIE),
];

/// Sets the interrupt enables in `mask`; every other bit of register B stays.
pub fn enable_irqs(control_b: u8, mask: u8) -> (r: u8)
    ensures
        r == control_b | mask,
        r & mask == mask,
        r & !mask == control_b & !mask,
{
    proof {
        assert((control_b | mask) & mask == mask && (control_b | mask) & !mask == control_b & !mask)
            by (bit_vector);
    }
    control_b | mask
}

/// Clears the interrupt enables in `mask`; every other bit of register B stays.
pub fn disable_irqs(control_b: u8, mask: u8) -> (r: u8)
    ensures
        r == control_b & !mask,
        r & mask == 0,
        r & !mask == control_b & !mask,
{
    proof {
        assert((control_b & !mask) & mask == 0 && (control_b & !mask) & !mask == control_b & !mask)
            by (bit_vector);
    }
    control_b & !mask
}

/// Register C with only the flags whose enables register B has set, plus the summary flag.
pub open spec fn spec_filter(intr_c: u8, control_b: u8) -> u8 {
    intr_c & ((control_b & IRQ_MASK) | IRQF)
}

/// Keeps the register-C source flags that register B enables, and the summary flag.
pub fn filter_irq_status(intr_c: u8, control_b: u8) -> (r: u8)
    ensures
        r == spec_filter(intr_c, control_b),
{
    intr_c & ((control_b & IRQ_MASK) | IRQF)
}

/// The sources an interrupt reports: none without the summary flag, else the source flags.
pub open spec fn spec_sources(intr_c: u8) -> u8 {
    if intr_c & IRQF == 0 {
        0
    } else {
        intr_c & IRQ_MASK
    }
}

/// The interrupt sources reported: an interrupt needs the summary flag and a source flag.
pub fn interrupt_sources(intr_c: u8) -> (r: u8)
    ensures
        r == spec_sources(intr_c),
        r != 0 ==> intr_c & IRQF != 0 && intr_c & IRQ_MASK != 0,
{
    if intr_c & IRQF == 0 {
        0
    } else {
        intr_c & IRQ_MASK
    }
}

/// Register-B values after an interrupt, and whether it was the RTC's.
#[derive(Debug, Clone, Copy, PartialEq, Eq)]
pub struct InterruptResult {
    pub status: u8,
    pub control_b: u8,
    pub suspend_control: u8,
    pub handled: bool,
}

/// The result of an interrupt: register C is filtered by the suspend-time register B when one
/// is saved (nonzero), else by the live one; an alarm flag then clears AIE in both, since the
/// alarm fires once; the interrupt is the RTC's when a source remains.
pub open spec fn spec_handle(intr_c: u8, control_b: u8, suspend_control: u8) -> InterruptResult {
    let effective = if suspend_control == 0 {
        control_b
    } else {
        suspend_control
    };
    let status = spec_filter(intr_c, effective);
    let alarm = status & AIE != 0;
    InterruptResult {
        status,
        control_b: if alarm {
            control_b & !AIE
        } else {
            control_b
        },
        suspend_control: if alarm {
            suspend_control & !AIE
        } else {
            suspend_control
        },
        handled: spec_sources(status) != 0,
    }
}

/// Handles register C. After an alarm, AIE is clear in both the live and the saved register B.
pub fn handle_interrupt(intr_c: u8, control_b: u8, suspend_control: u8) -> (r: InterruptResult)
    ensures
        r == spec_handle(intr_c, control_b, suspend_control),
        r.status & AF != 0 ==> r.control_b & AIE == 0 && r.suspend_control & AIE == 0,
{
    let effective_control = if suspend_control == 0 {
        control_b
    } else {
        suspend_control
    };
    let status = filter_irq_status(intr_c, effective_control);
    let alarm = status & AIE != 0;
    let next_control = if alarm {
        control_b & !AIE
    } else {
        control_b
    };
    let next_suspend = if alarm {
        suspend_control & !AIE
    } else {
        suspend_control
    };
    proof {
        assert(AF == AIE);
        assert((control_b & !0x20u8) & 0x20 == 0 && (suspend_control & !0x20u8) & 0x20 == 0)
            by (bit_vector);
    }
    InterruptResult {
        status,
        control_b: next_control,
        suspend_control: next_suspend,
        handled: interrupt_sources(status) != 0,
    }
}

/// With a usable IRQ the RTC must run in 24-hour mode; without one any mode will do.
pub fn supports_required_24_hour_mode(valid_irq: bool, control_b: u8) -> (r: bool)
    ensures
        r == (!valid_irq || control_b & HOUR_24 != 0),
{
    !valid_irq || control_b & HOUR_24 != 0
}

} // verus!
