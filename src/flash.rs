//! Flash memory interface.

use vstd::prelude::*;
use crate::device::FLASH;

verus! {

/// Constrains the FLASH peripheral.
pub trait FlashExt {
    /// Splits the FLASH peripheral into its register tokens.
    fn constrain(self) -> Parts;
}

impl FlashExt for FLASH {
    fn constrain(self) -> Parts {
        Parts { acr: ACR { _0: () } }
    }
}

/// The register tokens of the FLASH peripheral.
pub struct Parts {
    /// Access control register, which holds the wait-state latency.
    pub acr: ACR,
}

/// Exclusive right to the flash access control register.
pub struct ACR {
    _0: (),
}

} // verus!
