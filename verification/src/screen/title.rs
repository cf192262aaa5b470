//! The title screen.

use super::game::{pixel_location, Game, GameState};
use crate::game::generate::generated;
use crate::game::{self as game, Color, Grid, Position};
use crate::mmio::keys::KeyInput;
use vstd::prelude::*;

verus! {

/// The title screen. While it waits it counts frames, and the count is the
/// seed of the board when the game starts.
#[derive(Debug)]
pub struct Title {
    random_seed: u32,
}

impl Title {
    /// The seed the next game would be generated from.
    pub closed spec fn view(&self) -> u32 {
        self.random_seed
    }

    /// A title screen that starts counting from zero.
    pub fn new() -> (title: Self)
        ensures
            title@ == 0,
    {
        Self { random_seed: 0 }
    }

    /// One frame of the title screen, with `keys` held.
    ///
    /// With the A button held, a game starts: on the board generated from
    /// the seed, with red to move, the player playing red and the cursor in
    /// the top left corner. Otherwise the seed is counted up, starting over
    /// from zero after the greatest one.
    pub fn run(&mut self, keys: KeyInput) -> (started: Option<Game>)
        ensures
            keys.spec_contains(KeyInput::spec_a()) ==> final(self)@ == old(self)@,
            keys.spec_contains(KeyInput::spec_a()) ==> (started matches Some(screen)
                && starts_game(screen@, old(self)@)),
            !keys.spec_contains(KeyInput::spec_a()) ==> started is None && final(self)@ == (if old(
                self,
            )@ == u32::MAX {
                0
            } else {
                old(self)@ + 1
            }),
    {
        if keys.contains(KeyInput::a()) {
            let cursor = Position { x: 0, y: 0 };
            return Some(
                Game::new(
                    cursor,
                    game::Game::builder().grid(Grid::generate(self.random_seed as u64)).build(),
                    Color::Red,
                ),
            );
        }
        self.random_seed = self.random_seed.wrapping_add(1);

        None
    }
}

/// Whether `screen` is the game screen at the start of the game generated
/// from `seed`.
pub open spec fn starts_game(screen: GameState, seed: u32) -> bool {
    &&& screen.cursor == (Position { x: 0, y: 0 })
    &&& screen.prev_keys == KeyInput::spec_none()
    &&& screen.player_color == Color::Red
    &&& screen.offset == pixel_location(Position { x: 0, y: 0 })
    &&& !screen.scroll_at_start_of_player_turn
    &&& screen.state.wf()
    &&& screen.state.spec_turn_color() == Color::Red
    &&& screen.state.spec_grid()@ == generated(seed as u64)
}

} // verus!
