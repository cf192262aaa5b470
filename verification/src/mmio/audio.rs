//! The sound registers.

use super::bits::{bit_set_to, set_bit};
use vstd::prelude::*;

verus! {

/// The master switch of the sound hardware.
#[derive(Debug, PartialEq, Eq, Structural)]
pub struct Enable(pub u16);

impl Enable {
    /// Everything off.
    pub fn new() -> (enable: Self)
        ensures
            enable.0 == 0,
    {
        Self(0)
    }

    /// Switches all sound on or off: bit 7.
    pub fn master_enable(self, set: bool) -> (enable: Self)
        ensures
            enable.0 == bit_set_to(self.0, 7, set),
    {
        Self(set_bit(self.0, 7, set))
    }
}

/// The routing of the direct sound channels.
#[derive(Debug, PartialEq, Eq, Structural)]
pub struct Control(pub u16);

impl Control {
    /// Nothing routed.
    pub fn new() -> (control: Self)
        ensures
            control.0 == 0,
    {
        Self(0)
    }

    /// Sends channel A to the right speaker or not: bit 8.
    pub fn sound_a_right(self, set: bool) -> (control: Self)
        ensures
            control.0 == bit_set_to(self.0, 8, set),
    {
        Self(set_bit(self.0, 8, set))
    }

    /// Sends channel A to the left speaker or not: bit 9.
    pub fn sound_a_left(self, set: bool) -> (control: Self)
        ensures
            control.0 == bit_set_to(self.0, 9, set),
    {
        Self(set_bit(self.0, 9, set))
    }

    /// Asks for a reset of the queue of channel A or not: bit 11.
    pub fn sound_a_fifo_reset(self, set: bool) -> (control: Self)
        ensures
            control.0 == bit_set_to(self.0, 11, set),
    {
        Self(set_bit(self.0, 11, set))
    }
}

} // verus!
