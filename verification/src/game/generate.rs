//! Procedural generation of a board from a seed.
//!
//! The top-left 8x8 quadrant is decided cell by cell, one random byte per
//! cell, and every decision is carried over to the other three quadrants by
//! quarter turns about the centre of the board.

use super::{Color, Direction, Grid, Node};
use crate::random::{advance, gen_u8, output_byte, seeded, Pcg32Fast, DEFAULT_MULTIPLIER};
use vstd::prelude::*;

verus! {

/// The place of column `x` of row `y` in the row-major listing of the board.
pub open spec fn cell_index(x: int, y: int) -> int {
    y * 16 + x
}

/// An arrow that no player owns.
pub open spec fn free_arrow(direction: Direction) -> Node {
    Node::Arrow { alignment: None, direction }
}

/// The four cells that quarter turns about the centre of the board carry the
/// cell at column `x` of row `y` to: the cell itself, then its images under a
/// quarter turn counter-clockwise, a quarter turn clockwise and a half turn.
pub open spec fn orbit(x: int, y: int) -> (int, int, int, int) {
    (
        cell_index(x, y),
        cell_index(y, 15 - x),
        cell_index(15 - y, x),
        cell_index(15 - x, 15 - y),
    )
}

/// `cells` with a free arrow at column `x` of row `y` and the arrow turned
/// along with the board in the three other cells of the orbit.
pub open spec fn with_reflected_arrows(
    cells: Seq<Node>,
    x: int,
    y: int,
    direction: Direction,
) -> Seq<Node> {
    cells.update(orbit(x, y).0, free_arrow(direction)).update(
        orbit(x, y).1,
        free_arrow(direction.spec_counter_clockwise()),
    ).update(orbit(x, y).2, free_arrow(direction.spec_clockwise())).update(
        orbit(x, y).3,
        free_arrow(direction.spec_opposite()),
    )
}

/// The direction a secret redirector gets from a random byte.
pub open spec fn redirector_direction(byte: u8) -> Direction {
    if byte <= 63 {
        Direction::Left
    } else if byte <= 127 {
        Direction::Up
    } else if byte <= 191 {
        Direction::Right
    } else {
        Direction::Down
    }
}

/// The cells and generator state after a wall, a hidden junction or a hidden
/// redirector was put at column `x` of row `y`.
///
/// The first byte drawn chooses among the three; a redirector draws a second
/// byte for its direction.
pub open spec fn place_wall(cells: Seq<Node>, state: u64, x: int, y: int) -> (Seq<Node>, u64) {
    let byte = output_byte(state, DEFAULT_MULTIPLIER);
    let next = advance(state, DEFAULT_MULTIPLIER);
    if byte <= 63 {
        (cells.update(cell_index(x, y), Node::AllDirection { alignment: None }), next)
    } else if byte <= 127 {
        (
            cells.update(
                cell_index(x, y),
                Node::SuperArrow {
                    alignment: None,
                    direction: redirector_direction(output_byte(next, DEFAULT_MULTIPLIER)),
                },
            ),
            advance(next, DEFAULT_MULTIPLIER),
        )
    } else {
        (cells.update(cell_index(x, y), Node::Wall), next)
    }
}

/// The direction of the arrow that a random byte asks for at column `x` of
/// row `y` of the quadrant, or `None` where it asks for walls.
///
/// The two cells next to the corner never point at it, and on the two outer
/// edges an arrow along the edge stands in for a wall.
pub open spec fn arrow_for_byte(byte: u8, x: int, y: int) -> Option<Direction> {
    if byte <= 60 {
        if x == 1 && y == 0 {
            Some(Direction::Up)
        } else {
            Some(Direction::Left)
        }
    } else if byte <= 120 {
        if x == 0 && y == 1 {
            Some(Direction::Left)
        } else {
            Some(Direction::Up)
        }
    } else if byte <= 180 {
        Some(Direction::Right)
    } else if byte <= 240 {
        Some(Direction::Down)
    } else if x == 0 {
        Some(Direction::Down)
    } else if y == 0 {
        Some(Direction::Right)
    } else {
        None
    }
}

/// The cells and generator state after the four walls of the orbit of column
/// `x` of row `y` were placed.
pub open spec fn place_walls(cells: Seq<Node>, state: u64, x: int, y: int) -> (Seq<Node>, u64) {
    let first = place_wall(cells, state, x, y);
    let second = place_wall(first.0, first.1, 15 - y, x);
    let third = place_wall(second.0, second.1, y, 15 - x);
    place_wall(third.0, third.1, 15 - x, 15 - y)
}

/// The cells and generator state after the orbit of column `x` of row `y` of
/// the quadrant was decided.
pub open spec fn place_cell(cells: Seq<Node>, state: u64, x: int, y: int) -> (Seq<Node>, u64) {
    let byte = output_byte(state, DEFAULT_MULTIPLIER);
    let next = advance(state, DEFAULT_MULTIPLIER);
    match arrow_for_byte(byte, x, y) {
        Some(direction) => (with_reflected_arrows(cells, x, y, direction), next),
        None => place_walls(cells, next, x, y),
    }
}

/// The board that comes of deciding the cells of the quadrant from number
/// `done` on, row by row. Cell 0 is the starting corner and is left alone.
pub open spec fn generate_from(cells: Seq<Node>, state: u64, done: nat) -> Seq<Node>
    decreases 64 - done,
{
    if done >= 64 {
        cells
    } else if done == 0 {
        generate_from(cells, state, 1)
    } else {
        let placed = place_cell(cells, state, done as int % 8, done as int / 8);
        generate_from(placed.0, placed.1, done + 1)
    }
}

/// An empty board with the four starting arrows in its corners.
pub open spec fn starting_cells() -> Seq<Node> {
    Seq::new(256, |i: int| Node::Empty).update(
        cell_index(0, 0),
        Node::Arrow { alignment: Some(Color::Red), direction: Direction::Up },
    ).update(
        cell_index(15, 0),
        Node::Arrow { alignment: Some(Color::Blue), direction: Direction::Right },
    ).update(
        cell_index(0, 15),
        Node::Arrow { alignment: Some(Color::Yellow), direction: Direction::Left },
    ).update(
        cell_index(15, 15),
        Node::Arrow { alignment: Some(Color::Green), direction: Direction::Down },
    )
}

/// The cells of the board generated from `seed`.
pub open spec fn generated(seed: u64) -> Seq<Node> {
    generate_from(starting_cells(), seeded(seed), 0)
}

/// Whether the node stops propagation as generated: a wall, or a secret node
/// that no player owns.
pub open spec fn blocks(node: Node) -> bool {
    node is Wall || ((node is AllDirection || node is SuperArrow) && node.spec_color() is None)
}

/// Whether the four cells of the orbit of column `x` of row `y` agree under
/// quarter turns: either all four are arrows, each pointing where the first
/// one points after the turn that leads to its cell, or all four block.
pub open spec fn orbit_symmetric(cells: Seq<Node>, x: int, y: int) -> bool {
    let (a, b, c, d) = orbit(x, y);
    ||| (cells[a] matches Node::Arrow { direction, .. } && cells[b] is Arrow && cells[c] is Arrow
        && cells[d] is Arrow && cells[b].spec_direction() == Some(direction.spec_counter_clockwise())
        && cells[c].spec_direction() == Some(direction.spec_clockwise())
        && cells[d].spec_direction() == Some(direction.spec_opposite()))
    ||| (blocks(cells[a]) && blocks(cells[b]) && blocks(cells[c]) && blocks(cells[d]))
}

/// Whether every orbit of the board agrees under quarter turns.
pub open spec fn symmetric(cells: Seq<Node>) -> bool {
    forall|x: int, y: int| 0 <= x < 8 && 0 <= y < 8 ==> #[trigger] orbit_symmetric(cells, x, y)
}

/// Whether the cell is one of the four corners of the board.
pub open spec fn is_corner(index: int) -> bool {
    index == cell_index(0, 0) || index == cell_index(15, 0) || index == cell_index(0, 15) || index
        == cell_index(15, 15)
}

/// Whether the orbits of the quadrant cells before number `done` are decided:
/// the corners hold the starting arrows, and every other orbit decided so far
/// agrees under quarter turns and has no owner.
pub open spec fn decided(cells: Seq<Node>, done: nat) -> bool {
    &&& cells.len() == 256
    &&& cells[cell_index(0, 0)] == Node::Arrow {
        alignment: Some(Color::Red),
        direction: Direction::Up,
    }
    &&& cells[cell_index(15, 0)] == Node::Arrow {
        alignment: Some(Color::Blue),
        direction: Direction::Right,
    }
    &&& cells[cell_index(0, 15)] == Node::Arrow {
        alignment: Some(Color::Yellow),
        direction: Direction::Left,
    }
    &&& cells[cell_index(15, 15)] == Node::Arrow {
        alignment: Some(Color::Green),
        direction: Direction::Down,
    }
    &&& forall|x: int, y: int|
        0 <= x < 8 && 0 <= y < 8 && 0 < y * 8 + x < done ==> #[trigger] orbit_settled(cells, x, y)
}

/// Whether the orbit of column `x` of row `y` agrees under quarter turns and
/// none of its four cells has an owner.
pub open spec fn orbit_settled(cells: Seq<Node>, x: int, y: int) -> bool {
    let (a, b, c, d) = orbit(x, y);
    &&& orbit_symmetric(cells, x, y)
    &&& cells[a].spec_color() is None
    &&& cells[b].spec_color() is None
    &&& cells[c].spec_color() is None
    &&& cells[d].spec_color() is None
}

/// Placing a wall changes the one cell it is placed in, and what it leaves
/// there blocks.
proof fn lemma_place_wall(cells: Seq<Node>, state: u64, x: int, y: int)
    requires
        cells.len() == 256,
        0 <= x < 16,
        0 <= y < 16,
    ensures
        place_wall(cells, state, x, y).0 == cells.update(
            cell_index(x, y),
            place_wall(cells, state, x, y).0[cell_index(x, y)],
        ),
        blocks(place_wall(cells, state, x, y).0[cell_index(x, y)]),
{
}

/// Whether `index` is one of the four cells of the orbit of column `x` of
/// row `y`.
pub open spec fn in_orbit(index: int, x: int, y: int) -> bool {
    index == orbit(x, y).0 || index == orbit(x, y).1 || index == orbit(x, y).2 || index == orbit(
        x,
        y,
    ).3
}

/// Whether `placed` is `cells` but for the orbit of column `x` of row `y`.
pub open spec fn differs_in_orbit(cells: Seq<Node>, placed: Seq<Node>, x: int, y: int) -> bool {
    &&& placed.len() == cells.len()
    &&& forall|index: int|
        0 <= index < cells.len() && !in_orbit(index, x, y) ==> placed[index] == cells[index]
}

/// Reflected arrows settle their orbit and change nothing else.
proof fn lemma_reflected_arrows_settle(cells: Seq<Node>, x: int, y: int, direction: Direction)
    requires
        cells.len() == 256,
        0 <= x < 8,
        0 <= y < 8,
    ensures
        orbit_settled(with_reflected_arrows(cells, x, y, direction), x, y),
        differs_in_orbit(cells, with_reflected_arrows(cells, x, y, direction), x, y),
{
}

/// Four walls settle their orbit and change nothing else.
proof fn lemma_walls_settle(cells: Seq<Node>, state: u64, x: int, y: int)
    requires
        cells.len() == 256,
        0 <= x < 8,
        0 <= y < 8,
    ensures
        orbit_settled(place_walls(cells, state, x, y).0, x, y),
        differs_in_orbit(cells, place_walls(cells, state, x, y).0, x, y),
{
    let first = place_wall(cells, state, x, y);
    let second = place_wall(first.0, first.1, 15 - y, x);
    let third = place_wall(second.0, second.1, y, 15 - x);
    let fourth = place_wall(third.0, third.1, 15 - x, 15 - y);
    lemma_place_wall(cells, state, x, y);
    lemma_place_wall(first.0, first.1, 15 - y, x);
    lemma_place_wall(second.0, second.1, y, 15 - x);
    lemma_place_wall(third.0, third.1, 15 - x, 15 - y);
    let (a, b, c, d) = orbit(x, y);
    assert(fourth.0[a] == first.0[a]);
    assert(fourth.0[c] == second.0[c]);
    assert(fourth.0[b] == third.0[b]);
}

/// Deciding an orbit settles it and changes nothing else.
proof fn lemma_place_cell_settles(cells: Seq<Node>, state: u64, x: int, y: int)
    requires
        cells.len() == 256,
        0 <= x < 8,
        0 <= y < 8,
    ensures
        orbit_settled(place_cell(cells, state, x, y).0, x, y),
        differs_in_orbit(cells, place_cell(cells, state, x, y).0, x, y),
{
    let byte = output_byte(state, DEFAULT_MULTIPLIER);
    let next = advance(state, DEFAULT_MULTIPLIER);
    match arrow_for_byte(byte, x, y) {
        Some(direction) => lemma_reflected_arrows_settle(cells, x, y, direction),
        None => lemma_walls_settle(cells, next, x, y),
    }
}

/// A change within one orbit of the quadrant leaves every other orbit of the
/// quadrant as it was.
proof fn lemma_other_orbit_kept(
    cells: Seq<Node>,
    placed: Seq<Node>,
    x: int,
    y: int,
    x2: int,
    y2: int,
)
    requires
        cells.len() == 256,
        differs_in_orbit(cells, placed, x, y),
        0 <= x < 8,
        0 <= y < 8,
        0 <= x2 < 8,
        0 <= y2 < 8,
        x != x2 || y != y2,
        orbit_settled(cells, x2, y2),
    ensures
        orbit_settled(placed, x2, y2),
{
    let (a2, b2, c2, d2) = orbit(x2, y2);
    assert(!in_orbit(a2, x, y));
    assert(!in_orbit(b2, x, y));
    assert(!in_orbit(c2, x, y));
    assert(!in_orbit(d2, x, y));
    assert(placed[a2] == cells[a2]);
    assert(placed[b2] == cells[b2]);
    assert(placed[c2] == cells[c2]);
    assert(placed[d2] == cells[d2]);
}

/// Deciding one more orbit keeps what was decided and settles that orbit.
proof fn lemma_place_cell_decides(cells: Seq<Node>, state: u64, done: nat)
    requires
        decided(cells, done),
        1 <= done < 64,
    ensures
        decided(place_cell(cells, state, done as int % 8, done as int / 8).0, done + 1),
{
    let x = done as int % 8;
    let y = done as int / 8;
    let placed = place_cell(cells, state, x, y).0;
    lemma_place_cell_settles(cells, state, x, y);
    assert(!in_orbit(cell_index(0, 0), x, y));
    assert(!in_orbit(cell_index(15, 0), x, y));
    assert(!in_orbit(cell_index(0, 15), x, y));
    assert(!in_orbit(cell_index(15, 15), x, y));
    assert forall|x2: int, y2: int|
        0 <= x2 < 8 && 0 <= y2 < 8 && 0 < y2 * 8 + x2 < done + 1 implies #[trigger] orbit_settled(
        placed,
        x2,
        y2,
    ) by {
        if x2 == x && y2 == y {
        } else {
            assert(orbit_settled(cells, x2, y2));
            lemma_other_orbit_kept(cells, placed, x, y, x2, y2);
        }
    }
}

/// Deciding the rest of the quadrant keeps what was decided and settles the
/// rest.
proof fn lemma_generate_from_decides(cells: Seq<Node>, state: u64, done: nat)
    requires
        decided(cells, done),
    ensures
        decided(generate_from(cells, state, done), 64),
    decreases 64 - done,
{
    if done >= 64 {
    } else if done == 0 {
        lemma_generate_from_decides(cells, state, 1);
    } else {
        lemma_place_cell_decides(cells, state, done);
        let placed = place_cell(cells, state, done as int % 8, done as int / 8);
        lemma_generate_from_decides(placed.0, placed.1, done + 1);
    }
}

/// Every cell of the board lies in the orbit of a cell of the quadrant.
proof fn lemma_orbits_cover(index: int) -> (cell: (int, int))
    requires
        0 <= index < 256,
    ensures
        0 <= cell.0 < 8,
        0 <= cell.1 < 8,
        in_orbit(index, cell.0, cell.1),
{
    let x = index % 16;
    let y = index / 16;
    if x < 8 && y < 8 {
        (x, y)
    } else if x >= 8 && y < 8 {
        (y, 15 - x)
    } else if x < 8 && y >= 8 {
        (15 - y, x)
    } else {
        (15 - x, 15 - y)
    }
}

/// Every generated board has the four starting arrows in its corners and no
/// owner anywhere else, and agrees with itself under quarter turns about its
/// centre.
pub proof fn lemma_generated_symmetric(seed: u64)
    ensures
        generated(seed).len() == 256,
        symmetric(generated(seed)),
        forall|index: int|
            0 <= index < 256 && !is_corner(index) ==> (#[trigger] generated(
                seed,
            )[index]).spec_color() is None,
        generated(seed)[cell_index(0, 0)] == (Node::Arrow {
            alignment: Some(Color::Red),
            direction: Direction::Up,
        }),
        generated(seed)[cell_index(15, 0)] == (Node::Arrow {
            alignment: Some(Color::Blue),
            direction: Direction::Right,
        }),
        generated(seed)[cell_index(0, 15)] == (Node::Arrow {
            alignment: Some(Color::Yellow),
            direction: Direction::Left,
        }),
        generated(seed)[cell_index(15, 15)] == (Node::Arrow {
            alignment: Some(Color::Green),
            direction: Direction::Down,
        }),
{
    lemma_generate_from_decides(starting_cells(), seeded(seed), 0);
    let cells = generated(seed);
    assert forall|x: int, y: int| 0 <= x < 8 && 0 <= y < 8 implies #[trigger] orbit_symmetric(
        cells,
        x,
        y,
    ) by {
        if x == 0 && y == 0 {
        } else {
            assert(orbit_settled(cells, x, y));
        }
    }
    assert forall|index: int| 0 <= index < 256 && !is_corner(index) implies (#[trigger] cells[index]).spec_color() is None by {
        let (x, y) = lemma_orbits_cover(index);
        assert(orbit_settled(cells, x, y));
    }
}

/// Two boards generated from the same seed are the same board, cell for
/// cell.
pub proof fn lemma_generate_deterministic(first: Grid, second: Grid, seed: u64)
    requires
        first@ == generated(seed),
        second@ == generated(seed),
    ensures
        first == second,
{
    first.lemma_cells_determine(&second);
}

impl Grid {
    /// Puts a free arrow at column `x` of row `y`, and the arrow turned along
    /// with the board in the three other cells of the orbit.
    fn populate_reflected_arrows(&mut self, x: usize, y: usize, direction: Direction)
        requires
            x < 16,
            y < 16,
        ensures
            final(self)@ == with_reflected_arrows(old(self)@, x as int, y as int, direction),
    {
        self.set(x, y, Node::Arrow { alignment: None, direction });
        self.set(y, 15 - x, Node::Arrow { alignment: None, direction: direction.counter_clockwise() });
        self.set(15 - y, x, Node::Arrow { alignment: None, direction: direction.clockwise() });
        self.set(15 - x, 15 - y, Node::Arrow { alignment: None, direction: direction.opposite() });
    }

    /// Puts a wall, a hidden junction or a hidden redirector at column `x` of
    /// row `y`, as the next random bytes decide.
    fn populate_wall(&mut self, x: usize, y: usize, pcg: &mut Pcg32Fast<DEFAULT_MULTIPLIER>)
        requires
            x < 16,
            y < 16,
        ensures
            (final(self)@, final(pcg)@) == place_wall(old(self)@, old(pcg)@, x as int, y as int),
    {
        let byte: u8 = gen_u8(pcg);
        if byte <= 63 {
            self.set(x, y, Node::AllDirection { alignment: None });
        } else if byte <= 127 {
            let turn: u8 = gen_u8(pcg);
            let direction = if turn <= 63 {
                Direction::Left
            } else if turn <= 127 {
                Direction::Up
            } else if turn <= 191 {
                Direction::Right
            } else {
                Direction::Down
            };
            self.set(x, y, Node::SuperArrow { alignment: None, direction });
        } else {
            self.set(x, y, Node::Wall);
        }
    }

    /// Decides the orbit of column `x` of row `y` of the quadrant from the
    /// next random byte.
    fn populate_cell(&mut self, x: usize, y: usize, pcg: &mut Pcg32Fast<DEFAULT_MULTIPLIER>)
        requires
            x < 8,
            y < 8,
        ensures
            (final(self)@, final(pcg)@) == place_cell(old(self)@, old(pcg)@, x as int, y as int),
    {
        let byte: u8 = gen_u8(pcg);
        if byte <= 60 {
            if x == 1 && y == 0 {
                self.populate_reflected_arrows(x, y, Direction::Up);
            } else {
                self.populate_reflected_arrows(x, y, Direction::Left);
            }
        } else if byte <= 120 {
            if x == 0 && y == 1 {
                self.populate_reflected_arrows(x, y, Direction::Left);
            } else {
                self.populate_reflected_arrows(x, y, Direction::Up);
            }
        } else if byte <= 180 {
            self.populate_reflected_arrows(x, y, Direction::Right);
        } else if byte <= 240 {
            self.populate_reflected_arrows(x, y, Direction::Down);
        } else {
            if x == 0 {
                self.populate_reflected_arrows(x, y, Direction::Down)
            } else if y == 0 {
                self.populate_reflected_arrows(x, y, Direction::Right)
            } else {
                self.populate_wall(x, y, pcg);
                self.populate_wall(15 - y, x, pcg);
                self.populate_wall(y, 15 - x, pcg);
                self.populate_wall(15 - x, 15 - y, pcg);
            }
        }
    }

    /// Generate a random grid.
    ///
    /// The same seed always gives the same board. Every board agrees with
    /// itself under quarter turns about its centre, and only the four
    /// starting arrows in its corners have an owner.
    pub fn generate(seed: u64) -> (board: Self)
        ensures
            board@ == generated(seed),
            symmetric(board@),
            forall|index: int|
                0 <= index < 256 && !is_corner(index) ==> (#[trigger] board@[index]).spec_color()
                    is None,
    {
        proof {
            lemma_generated_symmetric(seed);
        }
        let mut grid = Grid::new([[Node::Empty; 16]; 16]);
        assert(grid@ =~= Seq::new(256, |i: int| Node::Empty));

        // Starting positions.
        grid.set(0, 0, Node::Arrow { alignment: Some(Color::Red), direction: Direction::Up });
        grid.set(15, 0, Node::Arrow { alignment: Some(Color::Blue), direction: Direction::Right });
        grid.set(0, 15, Node::Arrow { alignment: Some(Color::Yellow), direction: Direction::Left });
        grid.set(15, 15, Node::Arrow { alignment: Some(Color::Green), direction: Direction::Down });

        let mut pcg = Pcg32Fast::<DEFAULT_MULTIPLIER>::new(seed);
        for y in 0..8usize
            invariant
                generate_from(grid@, pcg@, (y * 8) as nat) == generated(seed),
        {
            for x in 0..8usize
                invariant
                    y < 8,
                    generate_from(grid@, pcg@, (y * 8 + x) as nat) == generated(seed),
            {
                // Already did the starting positions.
                if !(x == 0 && y == 0) {
                    grid.populate_cell(x, y, &mut pcg);
                }
            }
        }

        grid
    }
}

} // verus!
