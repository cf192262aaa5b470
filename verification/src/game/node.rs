//! The cells of the board.

use super::{Color, Direction};
use vstd::prelude::*;

verus! {

/// What a cell of the board holds.
#[derive(Clone, Copy, Debug, PartialEq, Eq, Structural)]
pub enum Node {
    /// Nothing. Never carries a color.
    Empty,
    /// A wall. Never carries a color.
    Wall,
    /// An arrow pointing at one neighbour.
    Arrow { alignment: Option<Color>, direction: Direction },
    // "Secret" nodes.
    /// A junction, hidden until a player owns it; then it reaches all four
    /// neighbours.
    AllDirection { alignment: Option<Color> },
    /// A redirector, hidden until a player owns it; then it is an arrow that
    /// also turns the cells in front of it when it is rotated.
    SuperArrow { alignment: Option<Color>, direction: Direction },
}

impl Node {
    /// The color of the player who owns the node, if any.
    pub open spec fn spec_color(&self) -> Option<Color> {
        match *self {
            Node::Arrow { alignment, .. } => alignment,
            Node::AllDirection { alignment } => alignment,
            Node::SuperArrow { alignment, .. } => alignment,
            _ => None,
        }
    }

    /// Whether the node belongs to the player of the given color.
    pub open spec fn spec_is_color(&self, color: Color) -> bool {
        self.spec_color() == Some(color)
    }

    /// The direction the node points in, if it has one.
    pub open spec fn spec_direction(&self) -> Option<Direction> {
        match *self {
            Node::Arrow { direction, .. } => Some(direction),
            Node::SuperArrow { direction, .. } => Some(direction),
            _ => None,
        }
    }

    /// Whether the node is a junction.
    pub open spec fn spec_all_directions(&self) -> bool {
        *self is AllDirection
    }

    /// Whether the node is a secret node that no player owns yet.
    pub open spec fn spec_is_hidden(&self) -> bool {
        match *self {
            Node::AllDirection { alignment } => alignment is None,
            Node::SuperArrow { alignment, .. } => alignment is None,
            _ => false,
        }
    }

    /// Whether the node is a wall.
    pub open spec fn spec_is_wall(&self) -> bool {
        *self is Wall
    }

    /// Whether the node can carry a color at all.
    pub open spec fn colorable(&self) -> bool {
        *self is Arrow || *self is AllDirection || *self is SuperArrow
    }

    /// The node turned a quarter turn clockwise. Nodes without a direction
    /// stay as they are.
    pub open spec fn rotated(&self) -> Node {
        match *self {
            Node::Arrow { alignment, direction } => Node::Arrow {
                alignment,
                direction: direction.spec_clockwise(),
            },
            Node::SuperArrow { alignment, direction } => Node::SuperArrow {
                alignment,
                direction: direction.spec_clockwise(),
            },
            other => other,
        }
    }

    /// The node pointing in `new_direction`. Nodes without a direction stay
    /// as they are.
    pub open spec fn with_direction(&self, new_direction: Direction) -> Node {
        match *self {
            Node::Arrow { alignment, .. } => Node::Arrow { alignment, direction: new_direction },
            Node::SuperArrow { alignment, .. } => Node::SuperArrow {
                alignment,
                direction: new_direction,
            },
            other => other,
        }
    }

    /// The node owned by the player of the given color. Nodes that cannot
    /// carry a color stay as they are.
    pub open spec fn with_color(&self, color: Color) -> Node {
        match *self {
            Node::Arrow { direction, .. } => Node::Arrow { alignment: Some(color), direction },
            Node::AllDirection { .. } => Node::AllDirection { alignment: Some(color) },
            Node::SuperArrow { direction, .. } => Node::SuperArrow {
                alignment: Some(color),
                direction,
            },
            other => other,
        }
    }

    /// The color of the player who owns the node, if any.
    #[verifier::when_used_as_spec(spec_color)]
    pub fn color(&self) -> (color: Option<Color>)
        ensures
            color == self.spec_color(),
    {
        match self {
            Self::Arrow { alignment, .. }
            | Self::AllDirection { alignment }
            | Self::SuperArrow { alignment, .. } => *alignment,
            _ => None,
        }
    }

    /// Whether the node belongs to the player of the given color.
    #[verifier::when_used_as_spec(spec_is_color)]
    pub fn is_color(&self, color: Color) -> (owned: bool)
        ensures
            owned == self.spec_is_color(color),
    {
        match self {
            Self::Arrow { alignment, .. }
            | Self::AllDirection { alignment }
            | Self::SuperArrow { alignment, .. } => *alignment == Some(color),
            _ => false,
        }
    }

    /// Turns the node a quarter turn clockwise, if it has a direction.
    pub fn rotate(&mut self)
        ensures
            *final(self) == old(self).rotated(),
    {
        match self {
            Self::Arrow { direction, .. } => direction.rotate(),
            Self::SuperArrow { direction, .. } => direction.rotate(),
            _ => {},
        }
    }

    /// Points the node in the given direction, if it has a direction.
    pub fn set_direction(&mut self, new_direction: Direction)
        ensures
            *final(self) == old(self).with_direction(new_direction),
    {
        match self {
            Self::Arrow { direction, .. } => {
                *direction = new_direction;
            },
            Self::SuperArrow { direction, .. } => {
                *direction = new_direction;
            },
            _ => {},
        }
    }

    /// The direction the node points in, if it has one.
    #[verifier::when_used_as_spec(spec_direction)]
    pub fn direction(&self) -> (direction: Option<Direction>)
        ensures
            direction == self.spec_direction(),
    {
        if let Node::Arrow { direction, .. } | Self::SuperArrow { direction, .. } = self {
            Some(*direction)
        } else {
            None
        }
    }

    /// Whether the node is a junction.
    #[verifier::when_used_as_spec(spec_all_directions)]
    pub fn all_directions(&self) -> (junction: bool)
        ensures
            junction == self.spec_all_directions(),
    {
        matches!(self, Self::AllDirection { .. })
    }

    /// Returns whether the color was set.
    ///
    /// If the alignment was already `color`, then `false` is returned.
    pub fn set_color(&mut self, color: Color) -> (changed: bool)
        ensures
            *final(self) == old(self).with_color(color),
            changed == (old(self).colorable() && old(self).spec_color() != Some(color)),
    {
        if self.is_color(color) {
            false
        } else {
            match self {
                Self::Arrow { alignment, .. } => {
                    *alignment = Some(color);
                    true
                },
                Self::AllDirection { alignment } => {
                    *alignment = Some(color);
                    true
                },
                Self::SuperArrow { alignment, .. } => {
                    *alignment = Some(color);
                    true
                },
                _ => false,
            }
        }
    }

    /// Whether the node is a secret node that no player owns yet.
    #[verifier::when_used_as_spec(spec_is_hidden)]
    pub fn is_hidden(&self) -> (hidden: bool)
        ensures
            hidden == self.spec_is_hidden(),
    {
        match self {
            Node::AllDirection { alignment } | Self::SuperArrow { alignment, .. } => {
                alignment.is_none()
            },
            _ => false,
        }
    }

    /// Whether the node is a wall.
    #[verifier::when_used_as_spec(spec_is_wall)]
    pub fn is_wall(&self) -> (wall: bool)
        ensures
            wall == self.spec_is_wall(),
    {
        matches!(self, Self::Wall)
    }
}

} // verus!
