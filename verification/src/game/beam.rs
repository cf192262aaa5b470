//! The beam of a redirector: the cells in front of it that it turns.

use super::fill::position_at;
use super::{Direction, Node, Position};
use vstd::prelude::*;

verus! {

/// How far `to` lies ahead of `from` in `direction`, if it lies on the line
/// through `from` in that direction; zero if it does not.
pub open spec fn distance_ahead(from: Position, direction: Direction, to: Position) -> int {
    match direction {
        Direction::Left => if to.y == from.y {
            from.x - to.x
        } else {
            0
        },
        Direction::Up => if to.x == from.x {
            from.y - to.y
        } else {
            0
        },
        Direction::Right => if to.y == from.y {
            to.x - from.x
        } else {
            0
        },
        Direction::Down => if to.x == from.x {
            to.y - from.y
        } else {
            0
        },
    }
}

/// The place, in the row-major listing of the board, of the cell `distance`
/// steps ahead of `from` in `direction`.
pub open spec fn index_ahead(from: Position, direction: Direction, distance: int) -> int {
    match direction {
        Direction::Left => from.index() - distance,
        Direction::Up => from.index() - 16 * distance,
        Direction::Right => from.index() + distance,
        Direction::Down => from.index() + 16 * distance,
    }
}

/// Whether the cells up to `reach` steps ahead of `from` hold no wall.
pub open spec fn clear_ahead(
    cells: Seq<Node>,
    from: Position,
    direction: Direction,
    reach: int,
) -> bool {
    forall|distance: int|
        1 <= distance <= reach ==> !(#[trigger] cells[index_ahead(from, direction, distance)]
            is Wall)
}

/// Whether the beam sent from `from` in `direction` reaches `to`: `to` lies
/// ahead of `from`, and no wall stands between them or at `to`.
pub open spec fn in_beam(
    cells: Seq<Node>,
    from: Position,
    direction: Direction,
    to: Position,
) -> bool {
    distance_ahead(from, direction, to) >= 1 && clear_ahead(
        cells,
        from,
        direction,
        distance_ahead(from, direction, to),
    )
}

/// `cells` after a beam from `from` in `direction`: every node the beam
/// reaches points in `direction`, if it has a direction at all.
pub open spec fn beamed(cells: Seq<Node>, from: Position, direction: Direction) -> Seq<Node> {
    Seq::new(
        cells.len(),
        |index: int|
            if in_beam(cells, from, direction, position_at(index)) {
                cells[index].with_direction(direction)
            } else {
                cells[index]
            },
    )
}

/// `cells` with the nodes up to `reach` steps ahead of `from` pointing in
/// `direction`.
pub open spec fn beamed_up_to(
    cells: Seq<Node>,
    from: Position,
    direction: Direction,
    reach: int,
) -> Seq<Node> {
    Seq::new(
        cells.len(),
        |index: int|
            if 1 <= distance_ahead(from, direction, position_at(index)) <= reach {
                cells[index].with_direction(direction)
            } else {
                cells[index]
            },
    )
}

/// A step ahead is one more step of distance, on the same line.
pub proof fn lemma_step_ahead(from: Position, direction: Direction, to: Position)
    requires
        from.in_bounds(),
        to.in_bounds(),
        distance_ahead(from, direction, to) >= 1 || to == from,
        to.spec_step(direction) is Some,
    ensures
        distance_ahead(from, direction, to.spec_step(direction).unwrap()) == distance_ahead(
            from,
            direction,
            to,
        ) + 1,
        to.spec_step(direction).unwrap().in_bounds(),
        to.spec_step(direction).unwrap().index() == index_ahead(
            from,
            direction,
            distance_ahead(from, direction, to) + 1,
        ),
        to.index() == index_ahead(from, direction, distance_ahead(from, direction, to)),
{
}

} // verus!
