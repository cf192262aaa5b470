//! What a player submits, and why it may be refused.

use super::position::Position;
use vstd::prelude::*;

verus! {

/// A single move: the mover rotates one of their own nodes.
#[derive(Debug)]
pub struct Turn {
    /// The position to be rotated.
    pub rotate: Position,
}

/// Why a turn was refused.
#[derive(Debug, PartialEq, Eq, Structural)]
pub enum TurnError {
    /// The position is off the board, or the node there is not the mover's.
    InvalidRotationPosition,
}

} // verus!
