//! Where a fill spreads: the model of color propagation.
//!
//! A fill from a starting cell marks that cell and then follows the flow of
//! the board: out of a marked node along its direction (a junction flows out
//! to all four neighbours), and back into any visible neighbour that points
//! at a marked node or is a junction. Only nodes that can carry a color pass
//! the flow on. The cells a fill marks are the least set that holds the
//! starting cell and is closed under this flow.

use super::{Color, Direction, Node, Position};
use vstd::prelude::*;

verus! {

/// The position whose place in the row-major listing of the board is `index`.
pub open spec fn position_at(index: int) -> Position {
    Position { x: (index % 16) as u8, y: (index / 16) as u8 }
}

/// A position on the board is the position at its index.
pub proof fn lemma_position_at_index(position: Position)
    requires
        position.in_bounds(),
    ensures
        position_at(position.index()) == position,
        0 <= position.index() < 256,
{
}

/// The position at an index of the board lies on the board, at that index.
pub proof fn lemma_index_of_position_at(index: int)
    requires
        0 <= index < 256,
    ensures
        position_at(index).in_bounds(),
        position_at(index).index() == index,
{
}

/// Whether the flow goes out of `from` along the direction the node there
/// points in, or along any direction if it is a junction.
pub open spec fn flows_out(cells: Seq<Node>, from: Position, direction: Direction) -> bool {
    cells[from.index()].spec_direction() == Some(direction) || cells[from.index()] is AllDirection
}

/// Whether the neighbour of `from` in `direction` draws the flow in: it is
/// visible, and points back at `from` or is a junction.
pub open spec fn flows_back(cells: Seq<Node>, from: Position, direction: Direction) -> bool {
    from.spec_step(direction) matches Some(to) && !cells[to.index()].spec_is_hidden() && (
    cells[to.index()].spec_direction() == Some(direction.spec_opposite())
        || cells[to.index()] is AllDirection)
}

/// Whether a fill that has marked `from` goes on to its neighbour in
/// `direction`.
pub open spec fn flows_along(cells: Seq<Node>, from: Position, direction: Direction) -> bool {
    &&& from.in_bounds()
    &&& cells[from.index()].colorable()
    &&& from.spec_step(direction) is Some
    &&& flows_out(cells, from, direction) || flows_back(cells, from, direction)
}

/// Whether the flow never leaves `region`.
pub open spec fn closed(cells: Seq<Node>, region: Set<Position>) -> bool {
    forall|from: Position, direction: Direction|
        region.contains(from) && #[trigger] flows_along(cells, from, direction)
            ==> region.contains(from.spec_step(direction).unwrap())
}

/// The cells a fill from `start` marks: those that every closed region
/// holding `start` holds.
pub open spec fn filled_region(cells: Seq<Node>, start: Position) -> Set<Position> {
    Set::new(
        |position: Position|
            forall|region: Set<Position>|
                region.contains(start) && #[trigger] closed(cells, region) ==> region.contains(
                    position,
                ),
    )
}

/// `cells` with every node in `region` given to the player of `color`. Walls
/// and empty cells stay as they are.
pub open spec fn painted(cells: Seq<Node>, region: Set<Position>, color: Color) -> Seq<Node> {
    Seq::new(
        cells.len(),
        |index: int|
            if region.contains(position_at(index)) {
                cells[index].with_color(color)
            } else {
                cells[index]
            },
    )
}

/// The positions that are marked in a table of visited cells.
pub open spec fn marked(visited: [[bool; 16]; 16]) -> Set<Position> {
    Set::new(|position: Position| position.in_bounds() && visited[position.y as int][position.x as int])
}

/// The marks of a table of visited cells, row by row.
pub open spec fn marks(visited: [[bool; 16]; 16]) -> Seq<bool> {
    Seq::new(256, |index: int| visited[index / 16][index % 16])
}

/// The number of entries of `flags` that are not set.
pub open spec fn count_clear(flags: Seq<bool>) -> nat
    decreases flags.len(),
{
    if flags.len() == 0 {
        0
    } else {
        count_clear(flags.drop_last()) + if flags.last() {
            0nat
        } else {
            1nat
        }
    }
}

/// The number of cells that are not marked in a table of visited cells.
pub open spec fn unmarked(visited: [[bool; 16]; 16]) -> nat {
    count_clear(marks(visited))
}

/// Setting a clear flag leaves one clear flag fewer.
pub proof fn lemma_count_clear_set(flags: Seq<bool>, index: int)
    requires
        0 <= index < flags.len(),
        !flags[index],
    ensures
        count_clear(flags.update(index, true)) + 1 == count_clear(flags),
    decreases flags.len(),
{
    let updated = flags.update(index, true);
    if index == flags.len() - 1 {
        assert(updated.drop_last() =~= flags.drop_last());
    } else {
        assert(updated.drop_last() =~= flags.drop_last().update(index, true));
        lemma_count_clear_set(flags.drop_last(), index);
    }
}

/// Whether every cell marked in `after` but not in `before` lies in `region`.
pub open spec fn within(region: Set<Position>, before: Set<Position>, after: Set<Position>) -> bool {
    forall|position: Position|
        after.contains(position) && !before.contains(position) ==> region.contains(position)
}

/// Whether the flow out of every cell marked in `after` but not in `before`
/// ends in a cell marked in `after`.
pub open spec fn settled(cells: Seq<Node>, before: Set<Position>, after: Set<Position>) -> bool {
    forall|from: Position, direction: Direction|
        after.contains(from) && !before.contains(from) && #[trigger] flows_along(
            cells,
            from,
            direction,
        ) ==> after.contains(from.spec_step(direction).unwrap())
}

/// Whether going from the marks `before` to the marks `after` is a piece of
/// a fill that has reached `source`: marks are only added, the flow out of
/// the added cells is followed to its end, and nothing is added that a
/// closed region holding `source` would not hold.
pub open spec fn spreads(
    cells: Seq<Node>,
    source: Position,
    before: Set<Position>,
    after: Set<Position>,
) -> bool {
    &&& before.subset_of(after)
    &&& settled(cells, before, after)
    &&& forall|region: Set<Position>|
        region.contains(source) && closed(cells, region) ==> #[trigger] within(
            region,
            before,
            after,
        )
}

/// A fill that marks nothing spreads.
pub proof fn lemma_spreads_nowhere(cells: Seq<Node>, source: Position, marks: Set<Position>)
    ensures
        spreads(cells, source, marks, marks),
{
}

/// Two pieces of a fill from one source, one after the other, are a piece of
/// that fill.
pub proof fn lemma_spreads_onward(
    cells: Seq<Node>,
    source: Position,
    before: Set<Position>,
    between: Set<Position>,
    after: Set<Position>,
)
    requires
        spreads(cells, source, before, between),
        spreads(cells, source, between, after),
    ensures
        spreads(cells, source, before, after),
{
    assert forall|region: Set<Position>|
        region.contains(source) && closed(cells, region) implies #[trigger] within(
        region,
        before,
        after,
    ) by {
        assert(within(region, before, between));
        assert(within(region, between, after));
    }
}

/// A fill from a neighbour that the flow out of `source` leads to is a piece
/// of the fill that has reached `source`.
pub proof fn lemma_spreads_through(
    cells: Seq<Node>,
    source: Position,
    direction: Direction,
    before: Set<Position>,
    after: Set<Position>,
)
    requires
        flows_along(cells, source, direction) || before.contains(
            source.spec_step(direction).unwrap(),
        ),
        before.contains(source.spec_step(direction).unwrap()) ==> after == before,
        spreads(cells, source.spec_step(direction).unwrap(), before, after),
    ensures
        spreads(cells, source, before, after),
{
    let target = source.spec_step(direction).unwrap();
    assert forall|region: Set<Position>|
        region.contains(source) && closed(cells, region) implies #[trigger] within(
        region,
        before,
        after,
    ) by {
        if !before.contains(target) {
            assert(flows_along(cells, source, direction));
            assert(region.contains(target));
            assert(within(region, before, after));
        }
    }
}

/// A fill that starts with no cell marked marks exactly the filled region.
pub proof fn lemma_spreads_from_nothing(cells: Seq<Node>, start: Position, after: Set<Position>)
    requires
        spreads(cells, start, Set::empty(), after),
        after.contains(start),
    ensures
        after == filled_region(cells, start),
{
    let region = filled_region(cells, start);
    assert(closed(cells, after));
    assert forall|position: Position| after.contains(position) implies region.contains(
        position,
    ) by {
        assert forall|other: Set<Position>|
            other.contains(start) && #[trigger] closed(cells, other) implies other.contains(
            position,
        ) by {
            assert(within(other, Set::empty(), after));
        }
    }
    assert(after =~= region);
}

} // verus!
