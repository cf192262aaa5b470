//! The move a player who is not human makes.
//!
//! Every node the mover owns and can rotate is a candidate. A candidate is
//! worth the weight of the cell it would point at after the rotation, and
//! nothing if there is no such cell or the mover owns it already. The first
//! candidate of the greatest worth, going down the columns from left to
//! right, is chosen.

use super::reach::weight_of;
use super::{Color, Direction, Game, Node, Position, Turn};
use vstd::prelude::*;

verus! {

/// Whether the player of `color` owns the node at `position` and can rotate
/// it.
pub open spec fn is_candidate(cells: Seq<Node>, color: Color, position: Position) -> bool {
    &&& position.in_bounds()
    &&& cells[position.index()].spec_is_color(color)
    &&& cells[position.index()].spec_direction() is Some
}

/// What rotating the node at `position`, which points in `direction`, is
/// worth to the player of `color`.
pub open spec fn move_weight(
    cells: Seq<Node>,
    color: Color,
    position: Position,
    direction: Direction,
) -> nat {
    match position.spec_step(direction.spec_clockwise()) {
        Some(target) => if cells[target.index()].spec_is_color(color) {
            0
        } else {
            weight_of(cells, Set::empty(), target)
        },
        None => 0,
    }
}

/// What rotating the node at `position` is worth to the player of `color`.
pub open spec fn candidate_weight(cells: Seq<Node>, color: Color, position: Position) -> nat {
    move_weight(cells, color, position, cells[position.index()].spec_direction().unwrap())
}

/// The place of a position in the order the board is scanned in: down the
/// columns, from the left column to the right.
pub open spec fn scan_place(position: Position) -> int {
    position.x * 16 + position.y
}

/// Whether `best` is the first candidate of the greatest worth among the
/// candidates before place `limit` of the scan.
pub open spec fn best_before(cells: Seq<Node>, color: Color, best: Position, limit: int) -> bool {
    &&& is_candidate(cells, color, best)
    &&& scan_place(best) < limit
    &&& forall|other: Position|
        #[trigger] is_candidate(cells, color, other) && scan_place(other) < limit ==> {
            &&& candidate_weight(cells, color, other) <= candidate_weight(cells, color, best)
            &&& scan_place(other) < scan_place(best) ==> candidate_weight(cells, color, other)
                < candidate_weight(cells, color, best)
        }
}

/// Whether no candidate stands before place `limit` of the scan.
pub open spec fn none_before(cells: Seq<Node>, color: Color, limit: int) -> bool {
    forall|other: Position| #[trigger]
        is_candidate(cells, color, other) ==> scan_place(other) >= limit
}

/// What rotating the mover's node at `position`, which points in
/// `direction`, is worth to the mover.
fn weigh_move(game: &Game, position: Position, direction: Direction) -> (weight: u32)
    requires
        position.in_bounds(),
    ensures
        weight == move_weight(game.spec_grid()@, game.spec_turn_color(), position, direction),
{
    if let Some(new_pos) = position.step(direction.clockwise()) {
        proof {
            position.lemma_step_in_bounds(direction.spec_clockwise());
        }
        let owned = match game.grid().get(new_pos) {
            Some(node) => node.is_color(game.turn_color()),
            None => false,
        };
        if !owned {
            game.weight(new_pos)
        } else {
            0
        }
    } else {
        0
    }
}

/// Determine the best move for the player whose turn it is.
///
/// There is none if the mover owns no node that can be rotated.
pub fn select_turn(game: &Game) -> (turn: Option<Turn>)
    ensures
        match turn {
            Some(chosen) => best_before(
                game.spec_grid()@,
                game.spec_turn_color(),
                chosen.rotate,
                256,
            ),
            None => none_before(game.spec_grid()@, game.spec_turn_color(), 256),
        },
{
    let ghost cells = game.spec_grid()@;
    let ghost color = game.spec_turn_color();
    let mut best_position: Option<Position> = None;
    let mut best_weight: u32 = 0;
    for x in 0..16u8
        invariant
            cells == game.spec_grid()@,
            color == game.spec_turn_color(),
            match best_position {
                Some(best) => best_before(cells, color, best, x * 16) && best_weight
                    == candidate_weight(cells, color, best),
                None => none_before(cells, color, x * 16),
            },
    {
        for y in 0..16u8
            invariant
                x < 16,
                cells == game.spec_grid()@,
                color == game.spec_turn_color(),
                match best_position {
                    Some(best) => best_before(cells, color, best, x * 16 + y) && best_weight
                        == candidate_weight(cells, color, best),
                    None => none_before(cells, color, x * 16 + y),
                },
        {
            let position = Position { x, y };
            let node: Node = match game.grid().get(position) {
                Some(node) => *node,
                None => Node::Empty,
            };
            let ghost earlier = best_position;
            let ghost earlier_weight = best_weight;
            if node.is_color(game.turn_color()) {
                if let Some(direction) = node.direction() {
                    let weight = weigh_move(game, position, direction);
                    match best_position {
                        Some(_) => {
                            if weight > best_weight {
                                best_weight = weight;
                                best_position = Some(position);
                            }
                        },
                        None => {
                            best_weight = weight;
                            best_position = Some(position);
                        },
                    }
                }
            }
            proof {
                let limit = x * 16 + y + 1;
                assert forall|other: Position|
                    is_candidate(cells, color, other) && scan_place(other) < limit implies (
                other == position || scan_place(other) < limit - 1) by {}
                match best_position {
                    Some(best) => {
                        assert forall|other: Position|
                            #[trigger] is_candidate(cells, color, other) && scan_place(other)
                                < limit implies {
                            &&& candidate_weight(cells, color, other) <= candidate_weight(
                                cells,
                                color,
                                best,
                            )
                            &&& scan_place(other) < scan_place(best) ==> candidate_weight(
                                cells,
                                color,
                                other,
                            ) < candidate_weight(cells, color, best)
                        } by {
                            if other != position {
                                assert(scan_place(other) < limit - 1);
                                match earlier {
                                    Some(before) => {
                                        assert(best_before(cells, color, before, limit - 1));
                                    },
                                    None => {
                                        assert(none_before(cells, color, limit - 1));
                                    },
                                }
                            }
                        }
                    },
                    None => {
                        assert(none_before(cells, color, limit - 1));
                    },
                }
            }
        }
    }
    match best_position {
        Some(rotate) => Some(Turn { rotate }),
        None => None,
    }
}

} // verus!
