//! How much of the board a node reaches: the weight that ranks moves.
//!
//! A walk from a starting cell follows the visible nodes along their
//! directions (a junction leads on to all four neighbours) and never enters a
//! cell that was marked before it began. The weight of the starting cell is
//! the number of visible, pointing nodes that the walk comes by.

use super::fill::{
    flows_out, lemma_count_clear_set, lemma_index_of_position_at, lemma_position_at_index, marked,
    marks, position_at, unmarked, within,
};
use super::{Direction, Grid, Node, Position};
use vstd::prelude::*;

verus! {

/// Whether a walk goes on from the node: it is visible, and it points
/// somewhere or is a junction.
pub open spec fn carries(node: Node) -> bool {
    !node.spec_is_hidden() && (node.spec_direction() is Some || node is AllDirection)
}

/// Whether a walk that has come to `from` goes on to its neighbour in
/// `direction`.
pub open spec fn walks_along(cells: Seq<Node>, from: Position, direction: Direction) -> bool {
    &&& from.in_bounds()
    &&& carries(cells[from.index()])
    &&& from.spec_step(direction) is Some
    &&& flows_out(cells, from, direction)
}

/// Whether a walk that avoids `blocked` never leaves `region`.
pub open spec fn closed_off(
    cells: Seq<Node>,
    blocked: Set<Position>,
    region: Set<Position>,
) -> bool {
    forall|from: Position, direction: Direction|
        region.contains(from) && #[trigger] walks_along(cells, from, direction)
            && !blocked.contains(from.spec_step(direction).unwrap()) ==> region.contains(
            from.spec_step(direction).unwrap(),
        )
}

/// The cells a walk from `start` comes by when it avoids `blocked`: none if
/// `start` is off the board or blocked itself, else those that every region
/// holds that holds `start` and that the walk never leaves.
pub open spec fn walked_region(
    cells: Seq<Node>,
    blocked: Set<Position>,
    start: Position,
) -> Set<Position> {
    Set::new(
        |position: Position|
            start.in_bounds() && !blocked.contains(start) && forall|region: Set<Position>|
                region.contains(start) && #[trigger] closed_off(cells, blocked, region)
                    ==> region.contains(position),
    )
}

/// The number of cells among the first `end` of the board that lie in
/// `region` and hold a node that a walk goes on from.
pub open spec fn carrying_up_to(cells: Seq<Node>, region: Set<Position>, end: nat) -> nat
    decreases end,
{
    if end == 0 {
        0
    } else {
        carrying_up_to(cells, region, (end - 1) as nat) + if region.contains(
            position_at(end - 1),
        ) && carries(cells[end - 1]) {
            1nat
        } else {
            0nat
        }
    }
}

/// The number of cells of the board that lie in `region` and hold a node
/// that a walk goes on from.
pub open spec fn carrying(cells: Seq<Node>, region: Set<Position>) -> nat {
    carrying_up_to(cells, region, 256)
}

/// The weight of `start` on a board where `blocked` is marked already.
pub open spec fn weight_of(cells: Seq<Node>, blocked: Set<Position>, start: Position) -> nat {
    carrying(cells, walked_region(cells, blocked, start))
}

/// No more cells are counted than were looked at.
pub proof fn lemma_carrying_bound(cells: Seq<Node>, region: Set<Position>, end: nat)
    ensures
        carrying_up_to(cells, region, end) <= end,
    decreases end,
{
    if end > 0 {
        lemma_carrying_bound(cells, region, (end - 1) as nat);
    }
}

/// Nothing is counted in a region that holds no cell of the board.
proof fn lemma_carrying_none(cells: Seq<Node>, region: Set<Position>, end: nat)
    requires
        end <= 256,
        forall|position: Position| position.in_bounds() ==> !region.contains(position),
    ensures
        carrying_up_to(cells, region, end) == 0,
    decreases end,
{
    if end > 0 {
        lemma_index_of_position_at(end - 1);
        lemma_carrying_none(cells, region, (end - 1) as nat);
    }
}

/// What is counted in two regions without a common cell adds up.
proof fn lemma_carrying_sum(
    cells: Seq<Node>,
    first: Set<Position>,
    second: Set<Position>,
    end: nat,
)
    requires
        first.disjoint(second),
    ensures
        carrying_up_to(cells, first.union(second), end) == carrying_up_to(cells, first, end)
            + carrying_up_to(cells, second, end),
    decreases end,
{
    if end > 0 {
        lemma_carrying_sum(cells, first, second, (end - 1) as nat);
    }
}

/// In a region of one cell of the board, that cell is counted if its node
/// carries a walk on.
proof fn lemma_carrying_one(cells: Seq<Node>, position: Position, end: nat)
    requires
        position.in_bounds(),
        end <= 256,
    ensures
        carrying_up_to(cells, set![position], end) == if position.index() < end && carries(
            cells[position.index()],
        ) {
            1nat
        } else {
            0nat
        },
    decreases end,
{
    if end > 0 {
        lemma_index_of_position_at(end - 1);
        lemma_position_at_index(position);
        lemma_carrying_one(cells, position, (end - 1) as nat);
    }
}

/// Whether the walk out of every cell marked in `after` but not in `before`
/// ends in a cell marked in `after`.
pub open spec fn walked_out(cells: Seq<Node>, before: Set<Position>, after: Set<Position>) -> bool {
    forall|from: Position, direction: Direction|
        after.contains(from) && !before.contains(from) && #[trigger] walks_along(
            cells,
            from,
            direction,
        ) ==> after.contains(from.spec_step(direction).unwrap())
}

/// Whether going from the marks `before` to the marks `after` is a piece of
/// a walk that avoids `blocked` and has come to `source`.
pub open spec fn roams(
    cells: Seq<Node>,
    blocked: Set<Position>,
    source: Position,
    before: Set<Position>,
    after: Set<Position>,
) -> bool {
    &&& before.subset_of(after)
    &&& walked_out(cells, before, after)
    &&& forall|region: Set<Position>|
        region.contains(source) && closed_off(cells, blocked, region) ==> #[trigger] within(
            region,
            before,
            after,
        )
}

/// Two pieces of a walk from one source, one after the other, are a piece of
/// that walk, and what they count adds up.
proof fn lemma_roams_onward(
    cells: Seq<Node>,
    blocked: Set<Position>,
    source: Position,
    before: Set<Position>,
    between: Set<Position>,
    after: Set<Position>,
)
    requires
        roams(cells, blocked, source, before, between),
        roams(cells, blocked, source, between, after),
    ensures
        roams(cells, blocked, source, before, after),
        carrying(cells, after.difference(before)) == carrying(cells, between.difference(before))
            + carrying(cells, after.difference(between)),
{
    assert forall|region: Set<Position>|
        region.contains(source) && closed_off(cells, blocked, region) implies #[trigger] within(
        region,
        before,
        after,
    ) by {
        assert(within(region, before, between));
        assert(within(region, between, after));
    }
    lemma_carrying_sum(cells, between.difference(before), after.difference(between), 256);
    assert(between.difference(before).union(after.difference(between)) =~= after.difference(
        before,
    ));
}

/// A walk from a neighbour that the walk out of `source` leads to is a piece
/// of the walk that has come to `source`.
proof fn lemma_roams_through(
    cells: Seq<Node>,
    blocked: Set<Position>,
    source: Position,
    direction: Direction,
    before: Set<Position>,
    after: Set<Position>,
)
    requires
        blocked.subset_of(before),
        walks_along(cells, source, direction) || before.contains(
            source.spec_step(direction).unwrap(),
        ),
        before.contains(source.spec_step(direction).unwrap()) ==> after == before,
        roams(cells, blocked, source.spec_step(direction).unwrap(), before, after),
    ensures
        roams(cells, blocked, source, before, after),
{
    let target = source.spec_step(direction).unwrap();
    assert forall|region: Set<Position>|
        region.contains(source) && closed_off(cells, blocked, region) implies #[trigger] within(
        region,
        before,
        after,
    ) by {
        if !before.contains(target) {
            assert(walks_along(cells, source, direction));
            assert(region.contains(target));
            assert(within(region, before, after));
        }
    }
}

/// A walk that starts with exactly the blocked cells marked adds exactly the
/// walked region to them.
proof fn lemma_roams_from_blocked(
    cells: Seq<Node>,
    blocked: Set<Position>,
    start: Position,
    after: Set<Position>,
)
    requires
        start.in_bounds(),
        !blocked.contains(start),
        roams(cells, blocked, start, blocked, after),
        after.contains(start),
    ensures
        after.difference(blocked) == walked_region(cells, blocked, start),
{
    let region = walked_region(cells, blocked, start);
    let added = after.difference(blocked);
    assert(closed_off(cells, blocked, added));
    assert forall|position: Position| added.contains(position) implies region.contains(
        position,
    ) by {
        assert forall|other: Set<Position>|
            other.contains(start) && #[trigger] closed_off(cells, blocked, other)
            implies other.contains(position) by {
            assert(within(other, blocked, after));
        }
    }
    assert(added =~= region);
}

impl Grid {
    /// The weight of `position`: the number of visible, pointing nodes that
    /// a walk from it comes by, among the cells not marked in `visited`.
    /// The cells the walk comes by are marked in `visited`.
    ///
    /// A position off the board, or one marked already, weighs nothing.
    pub fn weight(&self, position: Position, visited: &mut [[bool; 16]; 16]) -> (weight: u32)
        ensures
            weight == weight_of(self@, marked(*old(visited)), position),
            marked(*final(visited)) == marked(*old(visited)).union(
                walked_region(self@, marked(*old(visited)), position),
            ),
    {
        let ghost blocked = marked(*visited);
        let weight = self.weigh(position, visited, Ghost(blocked));
        proof {
            let after = marked(*visited);
            if position.in_bounds() && !blocked.contains(position) {
                lemma_roams_from_blocked(self@, blocked, position, after);
            } else {
                assert(walked_region(self@, blocked, position) =~= Set::empty());
                assert(after.difference(blocked) =~= Set::empty());
            }
            assert(after =~= blocked.union(walked_region(self@, blocked, position)));
        }
        weight
    }

    /// One piece of the walk that began with `blocked` marked: the walk from
    /// `position` among the cells that are not marked yet.
    fn weigh(
        &self,
        position: Position,
        visited: &mut [[bool; 16]; 16],
        Ghost(blocked): Ghost<Set<Position>>,
    ) -> (weight: u32)
        requires
            blocked.subset_of(marked(*old(visited))),
        ensures
            unmarked(*final(visited)) <= unmarked(*old(visited)),
            roams(self@, blocked, position, marked(*old(visited)), marked(*final(visited))),
            position.in_bounds() ==> marked(*final(visited)).contains(position),
            marked(*old(visited)).contains(position) || !position.in_bounds() ==> marked(
                *final(visited),
            ) == marked(*old(visited)),
            weight == carrying(self@, marked(*final(visited)).difference(marked(*old(visited)))),
        decreases unmarked(*old(visited)), 0nat,
    {
        let ghost before = marked(*visited);
        proof {
            self.lemma_view_is_flat();
            assert(before.difference(before) =~= Set::empty());
            lemma_carrying_none(self@, Set::empty(), 256);
        }
        let node: Node = match self.get(position) {
            Some(node) => *node,
            None => return 0,
        };
        let x = position.x as usize;
        let y = position.y as usize;
        if visited[y][x] {
            return 0;
        }
        proof {
            lemma_position_at_index(position);
            lemma_count_clear_set(marks(*visited), position.index());
        }
        visited[y][x] = true;
        let ghost started = marked(*visited);
        proof {
            assert(marks(*visited) =~= marks(*old(visited)).update(position.index(), true));
            assert(started =~= before.insert(position));
            assert(started.difference(before) =~= set![position]);
            lemma_carrying_one(self@, position, 256);
            assert(started.difference(started) =~= Set::empty());
        }
        let weight: u32 = if node.is_hidden() {
            0
        } else {
            if let Some(direction) = node.direction() {
                let onward = self.weigh_onward(position, direction, visited, Ghost(blocked));
                proof {
                    lemma_carrying_bound(self@, marked(*visited).difference(started), 256);
                }
                1 + onward
            } else if node.all_directions() {
                let left = self.weigh_onward(position, Direction::Left, visited, Ghost(blocked));
                let ghost marked_left = marked(*visited);
                let up = self.weigh_onward(position, Direction::Up, visited, Ghost(blocked));
                let ghost marked_up = marked(*visited);
                let right = self.weigh_onward(position, Direction::Right, visited, Ghost(blocked));
                let ghost marked_right = marked(*visited);
                let down = self.weigh_onward(position, Direction::Down, visited, Ghost(blocked));
                proof {
                    lemma_roams_onward(self@, blocked, position, started, marked_left, marked_up);
                    lemma_roams_onward(self@, blocked, position, started, marked_up, marked_right);
                    lemma_roams_onward(
                        self@,
                        blocked,
                        position,
                        started,
                        marked_right,
                        marked(*visited),
                    );
                    lemma_carrying_bound(self@, marked(*visited).difference(started), 256);
                }
                1 + left + up + right + down
            } else {
                0
            }
        };
        proof {
            let after = marked(*visited);
            assert(roams(self@, blocked, position, started, after));
            lemma_carrying_sum(self@, started.difference(before), after.difference(started), 256);
            assert(started.difference(before).union(after.difference(started)) =~= after.difference(
                before,
            ));
            assert forall|from: Position, direction: Direction|
                after.contains(from) && !before.contains(from) && #[trigger] walks_along(
                    self@,
                    from,
                    direction,
                ) implies after.contains(from.spec_step(direction).unwrap()) by {
                if from == position {
                    match direction {
                        Direction::Left => {},
                        Direction::Up => {},
                        Direction::Right => {},
                        Direction::Down => {},
                    }
                }
            }
            assert forall|region: Set<Position>|
                region.contains(position) && closed_off(self@, blocked, region)
                implies #[trigger] within(region, before, after) by {
                assert(within(region, started, after));
            }
        }
        weight
    }

    /// Carries the walk from the marked cell at `position`, out of which it
    /// goes on in `direction`, on to the neighbour in that direction.
    fn weigh_onward(
        &self,
        position: Position,
        direction: Direction,
        visited: &mut [[bool; 16]; 16],
        Ghost(blocked): Ghost<Set<Position>>,
    ) -> (weight: u32)
        requires
            blocked.subset_of(marked(*old(visited))),
            position.spec_step(direction) is Some ==> walks_along(self@, position, direction),
        ensures
            unmarked(*final(visited)) <= unmarked(*old(visited)),
            roams(self@, blocked, position, marked(*old(visited)), marked(*final(visited))),
            position.spec_step(direction) matches Some(to) ==> marked(*final(visited)).contains(to),
            weight == carrying(self@, marked(*final(visited)).difference(marked(*old(visited)))),
        decreases unmarked(*old(visited)), 1nat,
    {
        proof {
            let before = marked(*visited);
            assert(before.difference(before) =~= Set::empty());
            lemma_carrying_none(self@, Set::empty(), 256);
        }
        if let Some(new_position) = position.step(direction) {
            let weight = self.weigh(new_position, visited, Ghost(blocked));
            proof {
                position.lemma_step_in_bounds(direction);
                lemma_roams_through(
                    self@,
                    blocked,
                    position,
                    direction,
                    marked(*old(visited)),
                    marked(*visited),
                );
            }
            weight
        } else {
            0
        }
    }
}

} // verus!
