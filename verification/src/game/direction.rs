//! The four compass directions a node can point in.

use vstd::prelude::*;

verus! {

/// One of the four directions on the board.
#[derive(Clone, Copy, Debug, PartialEq, Eq, Structural)]
pub enum Direction {
    Left,
    Up,
    Right,
    Down,
}

impl Direction {
    /// The direction a quarter turn clockwise from this one.
    pub open spec fn spec_clockwise(&self) -> Direction {
        match self {
            Direction::Left => Direction::Up,
            Direction::Up => Direction::Right,
            Direction::Right => Direction::Down,
            Direction::Down => Direction::Left,
        }
    }

    /// The direction a quarter turn counter-clockwise from this one.
    pub open spec fn spec_counter_clockwise(&self) -> Direction {
        match self {
            Direction::Left => Direction::Down,
            Direction::Up => Direction::Left,
            Direction::Right => Direction::Up,
            Direction::Down => Direction::Right,
        }
    }

    /// The direction pointing the other way.
    pub open spec fn spec_opposite(&self) -> Direction {
        match self {
            Direction::Left => Direction::Right,
            Direction::Up => Direction::Down,
            Direction::Right => Direction::Left,
            Direction::Down => Direction::Up,
        }
    }

    /// Turns this direction a quarter turn clockwise, in place.
    pub fn rotate(&mut self)
        ensures
            *final(self) == old(self).spec_clockwise(),
    {
        *self = self.clockwise();
    }

    /// The direction pointing the other way.
    #[verifier::when_used_as_spec(spec_opposite)]
    pub fn opposite(&self) -> (r: Direction)
        ensures
            r == self.spec_opposite(),
    {
        match self {
            Direction::Left => Direction::Right,
            Direction::Up => Direction::Down,
            Direction::Right => Direction::Left,
            Direction::Down => Direction::Up,
        }
    }

    /// The direction a quarter turn clockwise from this one.
    #[verifier::when_used_as_spec(spec_clockwise)]
    pub fn clockwise(&self) -> (r: Direction)
        ensures
            r == self.spec_clockwise(),
    {
        match self {
            Direction::Left => Direction::Up,
            Direction::Up => Direction::Right,
            Direction::Right => Direction::Down,
            Direction::Down => Direction::Left,
        }
    }

    /// The direction a quarter turn counter-clockwise from this one.
    #[verifier::when_used_as_spec(spec_counter_clockwise)]
    pub fn counter_clockwise(&self) -> (r: Direction)
        ensures
            r == self.spec_counter_clockwise(),
    {
        match self {
            Direction::Left => Direction::Down,
            Direction::Up => Direction::Left,
            Direction::Right => Direction::Up,
            Direction::Down => Direction::Right,
        }
    }
}

} // verus!
