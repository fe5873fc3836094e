# coral_drivers

Verified control logic for four hardware drivers, written in Verus:

- `pwm_lpss`: register encoding and the update handshake of the Intel LPSS PWM controller.
- `r8169`: chip identification, register traffic (reset, interrupts, MDIO/OCP, ERI, MAC
  address), descriptor rings and link handling of RealTek RTL8169-family Ethernet controllers.
- `regmap_cache` and `regmap_regcache`: register-map access policy, cache modes, register and
  value byte formatting, cache-type selection, block index arithmetic, register defaults, and
  the planning of sync writes.
- `rtc_cmos`: alarm conversion, interrupt controls and power-management decisions of the
  PC-style CMOS real-time clock.

Nothing here touches hardware. Register access goes through caller-implemented traits whose
contracts record every access, so the register traffic of each function is part of its proved
contract; where a function hands the bus to a caller's closure, the contract places the
closure's own traffic between the accesses the function makes. Other functions return values
and plans for the caller to carry out.

Layout: `src/` is the verified library (one module per driver), `tests/` holds its tests.
