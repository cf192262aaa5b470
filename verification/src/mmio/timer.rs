//! The control word of a timer.

use super::bits::{bit_set_to, field_set_to, set_bit, set_field};
use vstd::prelude::*;

verus! {

/// How many clock cycles make one tick of a timer.
#[derive(Debug)]
pub enum Prescaler {
    /// One tick per cycle.
    Freq1,
}

impl Prescaler {
    /// The number the hardware knows the setting by.
    pub open spec fn spec_bits(&self) -> u16 {
        match self {
            Prescaler::Freq1 => 0,
        }
    }

    /// The number the hardware knows the setting by.
    #[verifier::when_used_as_spec(spec_bits)]
    pub fn bits(&self) -> (bits: u16)
        ensures
            bits == self.spec_bits(),
    {
        match self {
            Prescaler::Freq1 => 0,
        }
    }
}

/// The control word of a timer.
#[derive(Debug, PartialEq, Eq, Structural)]
pub struct Control(pub u16);

impl Control {
    /// A timer that is stopped.
    pub fn new() -> (control: Self)
        ensures
            control.0 == 0,
    {
        Self(0)
    }

    /// Chooses the length of a tick: bits 0 and 1.
    pub fn with_prescaler(self, prescaler: Prescaler) -> (control: Self)
        ensures
            control.0 == field_set_to(self.0, 0, 3, prescaler.spec_bits()),
    {
        Self(set_field(self.0, 0, 3, prescaler.bits()))
    }

    /// Starts or stops the timer: bit 7.
    pub fn with_enable(self, set: bool) -> (control: Self)
        ensures
            control.0 == bit_set_to(self.0, 7, set),
    {
        Self(set_bit(self.0, 7, set))
    }
}

} // verus!
