//! Coordinates on the board.

use super::Direction;
use vstd::prelude::*;

verus! {

/// A cell coordinate. `x` counts columns from the left, `y` rows from the top.
///
/// The board holds the positions with both coordinates below 16; any other
/// value is a position off the board.
#[derive(Clone, Copy, Debug, PartialEq, Eq, Structural)]
pub struct Position {
    pub x: u8,
    pub y: u8,
}

impl Position {
    /// Whether the position lies on the board.
    pub open spec fn in_bounds(self) -> bool {
        self.x < 16 && self.y < 16
    }

    /// The place of the position in a row-major listing of the board.
    pub open spec fn index(self) -> int {
        self.y * 16 + self.x
    }

    /// The neighbour one step away in `direction`, unless the step would
    /// leave the board through the edge the position sits on.
    pub open spec fn spec_step(self, direction: Direction) -> Option<Position> {
        match direction {
            Direction::Left => if self.x > 0 {
                Some(Position { x: (self.x - 1) as u8, y: self.y })
            } else {
                None
            },
            Direction::Up => if self.y > 0 {
                Some(Position { x: self.x, y: (self.y - 1) as u8 })
            } else {
                None
            },
            Direction::Right => if self.x < 15 {
                Some(Position { x: (self.x + 1) as u8, y: self.y })
            } else {
                None
            },
            Direction::Down => if self.y < 15 {
                Some(Position { x: self.x, y: (self.y + 1) as u8 })
            } else {
                None
            },
        }
    }

    /// Where `move_saturating` ends up: the neighbour if there is one within
    /// `max`, else the position itself.
    pub open spec fn spec_move_saturating(self, direction: Direction, max: Position) -> Position {
        match self.spec_step(direction) {
            Some(new_position) => if new_position.x <= max.x && new_position.y <= max.y {
                new_position
            } else {
                self
            },
            None => self,
        }
    }

    /// Attempt to move to a position one step away in the given direction.
    ///
    /// Will return `None` at an edge of the board: there is no wraparound.
    #[verifier::when_used_as_spec(spec_step)]
    pub fn step(self, direction: Direction) -> (moved: Option<Position>)
        ensures
            moved == self.spec_step(direction),
    {
        match direction {
            Direction::Left => if self.x > 0 {
                Some(Position { x: self.x - 1, y: self.y })
            } else {
                None
            },
            Direction::Up => if self.y > 0 {
                Some(Position { x: self.x, y: self.y - 1 })
            } else {
                None
            },
            Direction::Right => if self.x < 15 {
                Some(Position { x: self.x + 1, y: self.y })
            } else {
                None
            },
            Direction::Down => if self.y < 15 {
                Some(Position { x: self.x, y: self.y + 1 })
            } else {
                None
            },
        }
    }

    /// Moves one step in the given direction, staying put where the step
    /// would leave the board or pass `max` in either coordinate.
    #[verifier::when_used_as_spec(spec_move_saturating)]
    pub fn move_saturating(self, direction: Direction, max: Position) -> (moved: Position)
        ensures
            moved == self.spec_move_saturating(direction, max),
    {
        if let Some(new_position) = self.step(direction) {
            if new_position.x <= max.x && new_position.y <= max.y {
                new_position
            } else {
                self
            }
        } else {
            self
        }
    }

    /// A step from a position on the board ends on the board.
    pub proof fn lemma_step_in_bounds(self, direction: Direction)
        requires
            self.in_bounds(),
        ensures
            self.spec_step(direction) matches Some(moved) ==> moved.in_bounds(),
    {
    }
}

} // verus!
