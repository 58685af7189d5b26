# stm32f0xx-hal

A hardware abstraction layer for the STM32F0xx family (here the STM32F042),
split in two crates.

`src/` is the library, verified with Verus. It holds the decisions of every
driver as functions from plain register values to plain register values,
each with a contract:

- `rcc`: the clock tree (PLL multiplier, bus prescalers, flash wait states)
  and the clock enable registers;
- `i2c`, `i2c_slave`, `spi`, `serial`: bus timings, control words, status
  decoding, and the transfer state machines that answer each value of a
  status register with the register accesses that follow it;
- `flash`: half-word programming plans, page erase plans, sector iteration;
- `adc`, `tsc`, `timers`, `pwm`, `delay`, `watchdog`, `gpio`, `usb`, `can`,
  `signature`, `time`: the remaining peripherals and units.

Public proof functions state the properties that hold across calls, such as
that a transfer machine writes exactly its bytes, in order, whatever the
hardware reports.

`app/` performs the volatile register accesses on the device, waits while the
hardware is busy, and implements the embedded-hal, embedded-storage, bxcan and
stm32-usbd traits on top of the library.

`tests/` runs the library on concrete register values.
