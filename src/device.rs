//! Tokens for whole peripheral register blocks.

use vstd::prelude::*;

verus! {

/// The flash interface registers.
pub struct FLASH {
    _0: (),
}

/// The reset and clock control registers.
pub struct RCC {
    _0: (),
}

/// The registers of GPIO port A.
pub struct GPIOA {
    _0: (),
}

/// The registers of GPIO port B.
pub struct GPIOB {
    _0: (),
}

/// The registers of SPI1.
pub struct SPI1 {
    _0: (),
}

/// The registers of SPI2S2.
pub struct SPI2 {
    _0: (),
}

/// The registers of the sub-GHz radio SPI.
pub struct SPI3 {
    _0: (),
}

/// One token for each peripheral register block this library drives.
#[allow(non_snake_case)]
pub struct Handles {
    pub FLASH: FLASH,
    pub RCC: RCC,
    pub GPIOA: GPIOA,
    pub GPIOB: GPIOB,
    pub SPI1: SPI1,
    pub SPI2: SPI2,
    pub SPI3: SPI3,
}

impl Handles {
    /// The tokens of the register blocks, in exchange for the device's own
    /// peripherals. The device crate hands those out once, through
    /// `Peripherals::take`, so each register block has a single owner.
    pub fn take(device: stm32wl::stm32wle5::Peripherals) -> Handles {
        Handles {
            FLASH: FLASH { _0: () },
            RCC: RCC { _0: () },
            GPIOA: GPIOA { _0: () },
            GPIOB: GPIOB { _0: () },
            SPI1: SPI1 { _0: () },
            SPI2: SPI2 { _0: () },
            SPI3: SPI3 { _0: () },
        }
    }
}

} // verus!
