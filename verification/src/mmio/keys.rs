//! The key input register.

use vstd::prelude::*;

verus! {

/// The state of the ten keys. A key's bit is clear while the key is held.
#[derive(Clone, Copy, Debug, PartialEq, Eq, Structural)]
pub struct KeyInput(pub u16);

impl KeyInput {
    /// No key held.
    pub open spec fn spec_none() -> KeyInput {
        KeyInput(0b0000_0011_1111_1111)
    }

    /// No key held.
    #[verifier::when_used_as_spec(spec_none)]
    pub fn none() -> (value: KeyInput)
        ensures
            value == Self::spec_none(),
    {
        KeyInput(0b0000_0011_1111_1111)
    }

    /// The A button held.
    pub open spec fn spec_a() -> KeyInput {
        KeyInput(0b0000_0011_1111_1110)
    }

    /// The A button held.
    #[verifier::when_used_as_spec(spec_a)]
    pub fn a() -> (value: KeyInput)
        ensures
            value == Self::spec_a(),
    {
        KeyInput(0b0000_0011_1111_1110)
    }

    /// The B button held.
    pub open spec fn spec_b() -> KeyInput {
        KeyInput(0b0000_0011_1111_1101)
    }

    /// The B button held.
    #[verifier::when_used_as_spec(spec_b)]
    pub fn b() -> (value: KeyInput)
        ensures
            value == Self::spec_b(),
    {
        KeyInput(0b0000_0011_1111_1101)
    }

    /// Select held.
    pub open spec fn spec_select() -> KeyInput {
        KeyInput(0b0000_0011_1111_1011)
    }

    /// Select held.
    #[verifier::when_used_as_spec(spec_select)]
    pub fn select() -> (value: KeyInput)
        ensures
            value == Self::spec_select(),
    {
        KeyInput(0b0000_0011_1111_1011)
    }

    /// Start held.
    pub open spec fn spec_start() -> KeyInput {
        KeyInput(0b0000_0011_1111_0111)
    }

    /// Start held.
    #[verifier::when_used_as_spec(spec_start)]
    pub fn start() -> (value: KeyInput)
        ensures
            value == Self::spec_start(),
    {
        KeyInput(0b0000_0011_1111_0111)
    }

    /// Right held.
    pub open spec fn spec_right() -> KeyInput {
        KeyInput(0b0000_0011_1110_1111)
    }

    /// Right held.
    #[verifier::when_used_as_spec(spec_right)]
    pub fn right() -> (value: KeyInput)
        ensures
            value == Self::spec_right(),
    {
        KeyInput(0b0000_0011_1110_1111)
    }

    /// Left held.
    pub open spec fn spec_left() -> KeyInput {
        KeyInput(0b0000_0011_1101_1111)
    }

    /// Left held.
    #[verifier::when_used_as_spec(spec_left)]
    pub fn left() -> (value: KeyInput)
        ensures
            value == Self::spec_left(),
    {
        KeyInput(0b0000_0011_1101_1111)
    }

    /// Up held.
    pub open spec fn spec_up() -> KeyInput {
        KeyInput(0b0000_0011_1011_1111)
    }

    /// Up held.
    #[verifier::when_used_as_spec(spec_up)]
    pub fn up() -> (value: KeyInput)
        ensures
            value == Self::spec_up(),
    {
        KeyInput(0b0000_0011_1011_1111)
    }

    /// Down held.
    pub open spec fn spec_down() -> KeyInput {
        KeyInput(0b0000_0011_0111_1111)
    }

    /// Down held.
    #[verifier::when_used_as_spec(spec_down)]
    pub fn down() -> (value: KeyInput)
        ensures
            value == Self::spec_down(),
    {
        KeyInput(0b0000_0011_0111_1111)
    }

    /// The right shoulder button held.
    pub open spec fn spec_r() -> KeyInput {
        KeyInput(0b0000_0010_1111_1111)
    }

    /// The right shoulder button held.
    #[verifier::when_used_as_spec(spec_r)]
    pub fn r() -> (value: KeyInput)
        ensures
            value == Self::spec_r(),
    {
        KeyInput(0b0000_0010_1111_1111)
    }

    /// The left shoulder button held.
    pub open spec fn spec_l() -> KeyInput {
        KeyInput(0b0000_0001_1111_1111)
    }

    /// The left shoulder button held.
    #[verifier::when_used_as_spec(spec_l)]
    pub fn l() -> (value: KeyInput)
        ensures
            value == Self::spec_l(),
    {
        KeyInput(0b0000_0001_1111_1111)
    }

    /// The keys that are held, one set bit for each.
    pub open spec fn held(self) -> u16 {
        0b0000_0011_1111_1111u16 ^ self.0
    }

    /// Whether every key held in `other` is held in `self`.
    pub open spec fn spec_contains(self, other: Self) -> bool {
        self.held() & other.held() == other.held()
    }

    /// Whether every key held in `other` is held in `self`.
    #[verifier::when_used_as_spec(spec_contains)]
    pub fn contains(self, other: Self) -> (held: bool)
        ensures
            held == self.spec_contains(other),
    {
        (0b0000_0011_1111_1111u16 ^ self.0) & (0b0000_0011_1111_1111u16 ^ other.0) == (
        0b0000_0011_1111_1111u16 ^ other.0)
    }
}

} // verus!
