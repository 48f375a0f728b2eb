//! The seal of the SPI pin traits: this module is private, so only this
//! crate can implement `Sealed`, and with it `SckPin`, `MisoPin`, `MosiPin`
//! and `NssPin`.

use vstd::prelude::*;

verus! {

/// Marks the types that can serve as SPI pins.
pub trait Sealed {}

} // verus!
