//! Hardware abstraction for the STM32F0xx family of microcontrollers.
//!
//! The library holds the configuration logic of each peripheral driver as
//! plain values: clock trees, prescalers, register field encodings, and the
//! state machines that react to peripheral status flags. Every function states
//! in its contract what it computes. The volatile register accesses themselves
//! are performed by the caller, who hands the library the values it read and
//! writes back the values the library computed.
#![allow(non_camel_case_types)]

mod conv;
pub mod adc;
pub mod can;
pub mod delay;
pub mod flash;
pub mod gpio;
pub mod i2c;
pub mod i2c_slave;
pub mod pwm;
pub mod rcc;
pub mod serial;
pub mod signature;
pub mod spi;
pub mod time;
pub mod timers;
pub mod tsc;
pub mod usb;
pub mod watchdog;
pub mod prelude;
