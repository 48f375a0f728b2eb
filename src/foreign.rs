//! Types of outside crates that appear in this library's signatures. Where
//! their fields and variants are public, Verus reads them as declared there.

use vstd::prelude::*;

verus! {

/// `nb::Error`: `Other(E)` or `WouldBlock`.
#[verifier::external_type_specification]
pub struct ExNbError<E>(nb::Error<E>);

/// `embedded_hal::spi::Mode`: a clock polarity and a clock phase.
#[verifier::external_type_specification]
pub struct ExMode(embedded_hal::spi::Mode);

/// `embedded_hal::spi::Polarity`: `IdleLow` or `IdleHigh`.
#[verifier::external_type_specification]
pub struct ExPolarity(embedded_hal::spi::Polarity);

/// `embedded_hal::spi::Phase`: `CaptureOnFirstTransition` or `CaptureOnSecondTransition`.
#[verifier::external_type_specification]
pub struct ExPhase(embedded_hal::spi::Phase);

/// `stm32wl::stm32wle5::Peripherals`: the device's peripherals, which its
/// `take` hands out once. Only carried and consumed here.
#[verifier::external_type_specification]
#[verifier::external_body]
pub struct ExDevicePeripherals(stm32wl::stm32wle5::Peripherals);

} // verus!
