//! The interrupt enable register.

use vstd::prelude::*;

verus! {

/// A set of interrupt sources.
#[derive(Debug, PartialEq, Eq, Structural)]
pub struct Interrupts(pub u16);

impl Interrupts {
    /// The interrupt at the start of the vertical blank.
    pub fn vblank() -> (value: Interrupts)
        ensures
            value.0 == 0b0000_0000_0000_0001u16,
    {
        Interrupts(0b0000_0000_0000_0001)
    }
}

} // verus!
