# sensor_drivers

Register-level logic of a flight controller's sensors, verified with Verus:

- `src/bmp581.rs` — BMP581 barometer: configuration writes, report and
  OSR_EFF decoding.
- `src/icm45686.rs` — ICM-45686 inertial unit: power mode state, range and
  data-rate writes (with the data-rate/power-mode rule), external clock
  sequence and realignment, the start-up configuration as a step list,
  report decoding, and the indirect register access state machine.
- `src/mmc5983.rs` — MMC5983 magnetometer: automatic set/reset state,
  control writes, 18- and 16-bit report decoding.
- `src/neom9n.rs`, `src/neom9n/ubx.rs` — NEO-M9N receiver: UBX checksum and
  CFG-VALSET message construction, start-up sequence and configuration messages.
- `src/bytes.rs` — little-endian decoding and the SPI read command byte.

`app/` holds the bus side (embassy-stm32 SPI and UART drivers that move the
bytes the library builds), the reports in physical units, board bring-up
(clocks, buses, interrupt lines, CAN, PWM, CORDIC, the inertial units' clock)
and, on the bare-metal target, the heap and panic handler.
