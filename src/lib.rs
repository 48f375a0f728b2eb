//! Verified configuration layer for the GPIO, clock, flash and SPI peripherals
//! of the STM32WL family.
//!
//! Every operation states, as a sequence of [`trace::Op`]s, exactly which
//! register accesses it issues and in which order. The program that drives the
//! hardware carries the recorded accesses out on the device.

pub mod device;
pub mod flash;
pub mod foreign;
pub mod gpio;
pub mod rcc;
pub mod time;
pub mod trace;
pub mod spi;
