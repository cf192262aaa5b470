//! The screen shown when the game has ended.

use crate::mmio::keys::KeyInput;
use vstd::prelude::*;

verus! {

/// How the game ended for the player.
#[derive(Clone, Copy, Debug, PartialEq, Eq, Structural)]
pub enum PlayerResult {
    Win,
    Lose,
}

/// The screen that tells the player how the game ended.
#[derive(Debug)]
pub struct GameOver {
    result: PlayerResult,
}

impl GameOver {
    /// How the game ended.
    pub closed spec fn view(&self) -> PlayerResult {
        self.result
    }

    /// The screen for a game that ended with `result`.
    pub fn new(result: PlayerResult) -> (screen: Self)
        ensures
            screen@ == result,
    {
        Self { result }
    }

    /// How the game ended: which of the two banners is to be shown.
    pub fn result(&self) -> (result: PlayerResult)
        ensures
            result == self@,
    {
        self.result
    }

    /// The place in the map of the display where row `row` of the banner
    /// begins: ten entries into the row nine below.
    pub fn banner_offset(row: usize) -> (offset: usize)
        requires
            row < 2,
        ensures
            offset == (row + 9) * 32 + 10,
    {
        (row + 9) * 32 + 10
    }

    /// One frame of the screen, with `keys` held. Returns whether the title
    /// screen is to follow: it does when the A button is held.
    pub fn run(&mut self, keys: KeyInput) -> (done: bool)
        ensures
            done == keys.spec_contains(KeyInput::spec_a()),
            final(self)@ == old(self)@,
    {
        keys.contains(KeyInput::a())
    }
}

/// The brightness written to the display in step `step` of a fade, which has
/// 31 steps: half the step.
pub fn fade_level(step: u8) -> (level: u8)
    requires
        step < 31,
    ensures
        level == step / 2,
        level <= 15,
{
    step / 2
}

} // verus!
