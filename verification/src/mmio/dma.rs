//! The control word of a DMA channel.

use super::bits::{bit_set_to, field_set_to, set_bit, set_field};
use vstd::prelude::*;

verus! {

/// What happens to an address after each transfer.
#[derive(Debug)]
pub enum AddressControl {
    /// The address stays where it is.
    Fixed,
}

impl AddressControl {
    /// The number the hardware knows the setting by.
    pub open spec fn spec_bits(&self) -> u16 {
        match self {
            AddressControl::Fixed => 2,
        }
    }

    /// The number the hardware knows the setting by.
    #[verifier::when_used_as_spec(spec_bits)]
    pub fn bits(&self) -> (bits: u16)
        ensures
            bits == self.spec_bits(),
    {
        match self {
            AddressControl::Fixed => 2,
        }
    }
}

/// When a transfer starts.
#[derive(Debug)]
pub enum Timing {
    /// On the channel's special event, such as a sound queue running low.
    Special,
}

impl Timing {
    /// The number the hardware knows the setting by.
    pub open spec fn spec_bits(&self) -> u16 {
        match self {
            Timing::Special => 3,
        }
    }

    /// The number the hardware knows the setting by.
    #[verifier::when_used_as_spec(spec_bits)]
    pub fn bits(&self) -> (bits: u16)
        ensures
            bits == self.spec_bits(),
    {
        match self {
            Timing::Special => 3,
        }
    }
}

/// The control word of a DMA channel.
#[derive(Clone, Copy, Debug, PartialEq, Eq, Structural)]
pub struct DmaControl(pub u16);

impl DmaControl {
    /// A channel that is off.
    pub fn new() -> (control: Self)
        ensures
            control.0 == 0,
    {
        Self(0)
    }

    /// Chooses what happens to the destination address: bits 5 and 6.
    pub fn with_destination_address_control(self, control: AddressControl) -> (changed: Self)
        ensures
            changed.0 == field_set_to(self.0, 5, 3, control.spec_bits()),
    {
        Self(set_field(self.0, 5, 3, control.bits()))
    }

    /// Makes the transfer repeat: bit 9.
    pub fn with_repeat(self) -> (changed: Self)
        ensures
            changed.0 == bit_set_to(self.0, 9, true),
    {
        Self(set_bit(self.0, 9, true))
    }

    /// Makes the channel move 32 bits at a time: bit 10.
    pub fn with_transfer_32bit(self) -> (changed: Self)
        ensures
            changed.0 == bit_set_to(self.0, 10, true),
    {
        Self(set_bit(self.0, 10, true))
    }

    /// Chooses when the transfer starts: bits 12 and 13.
    pub fn with_timing(self, timing: Timing) -> (changed: Self)
        ensures
            changed.0 == field_set_to(self.0, 12, 3, timing.spec_bits()),
    {
        Self(set_field(self.0, 12, 3, timing.bits()))
    }

    /// Switches the channel on: bit 15.
    pub fn with_enabled(self) -> (changed: Self)
        ensures
            changed.0 == bit_set_to(self.0, 15, true),
    {
        Self(set_bit(self.0, 15, true))
    }

    /// The word as it is written to the register.
    pub fn to_u16(self) -> (bits: u16)
        ensures
            bits == self.0,
    {
        self.0
    }
}

} // verus!
