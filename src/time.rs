//! Frequencies.

use vstd::prelude::*;

verus! {

/// A frequency in hertz.
#[derive(Clone, Copy, Debug, PartialEq, Eq, Structural)]
pub struct Hertz(pub u32);

impl Hertz {
    /// `n` kilohertz.
    pub fn khz(n: u32) -> (r: Hertz)
        requires
            n * 1000 <= u32::MAX,
        ensures
            r.0 == n * 1000,
    {
        Hertz(n * 1000)
    }

    /// `n` megahertz.
    pub fn mhz(n: u32) -> (r: Hertz)
        requires
            n * 1_000_000 <= u32::MAX,
        ensures
            r.0 == n * 1_000_000,
    {
        Hertz(n * 1_000_000)
    }
}

} // verus!
