//! Verified control logic for a set of hardware drivers: the Intel LPSS PWM controller, the
//! RealTek RTL8169 family of Ethernet controllers, the regmap register-cache policy and its
//! cache bookkeeping, and the PC-style CMOS real-time clock.
//!
//! Nothing here touches hardware. Register access goes through caller-implemented traits whose
//! contracts record every access, so the order and content of the register traffic is part of
//! each function's proved contract.

pub mod pwm_lpss;
pub mod r8169;
pub mod regmap_cache;
pub mod regmap_regcache;
pub mod rtc_cmos;
pub mod text;
