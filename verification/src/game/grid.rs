//! The board.

use super::counts::{count_color, lemma_count_color_bound, ColorCounts};
use super::{Color, Node, Position};
use core::slice;
use vstd::prelude::*;

verus! {

/// The cells of sixteen rows of sixteen nodes, listed row by row.
pub open spec fn flatten(rows: [[Node; 16]; 16]) -> Seq<Node> {
    Seq::new(256, |i: int| rows[i / 16][i % 16])
}

/// The 16x16 board, row-major, with its origin at the top left.
#[derive(Debug)]
pub struct Grid([[Node; 16]; 16]);

impl Grid {
    /// The 256 cells of the board, row by row.
    pub closed spec fn view(&self) -> Seq<Node> {
        flatten(self.0)
    }

    /// The sixteen rows of the board, top to bottom.
    pub closed spec fn rows(&self) -> [[Node; 16]; 16] {
        self.0
    }

    /// The node at a position on the board.
    pub open spec fn at(&self, position: Position) -> Node {
        self@[position.index()]
    }

    /// The cells are those of the rows.
    pub proof fn lemma_view_is_flat(&self)
        ensures
            self@ == flatten(self.rows()),
            self@.len() == 256,
    {
    }

    /// Two boards with the same cells are the same board.
    pub proof fn lemma_cells_determine(&self, other: &Grid)
        requires
            self@ == other@,
        ensures
            *self == *other,
    {
        assert forall|y: int| 0 <= y < 16 implies self.0[y] == other.0[y] by {
            assert forall|x: int| 0 <= x < 16 implies self.0[y][x] == other.0[y][x] by {
                assert(self@[y * 16 + x] == self.0[y][x]);
                assert(other@[y * 16 + x] == other.0[y][x]);
            }
            assert(self.0[y] =~= other.0[y]);
        }
        assert(self.0 =~= other.0);
    }

    /// The board of the given rows.
    pub fn new(grid: [[Node; 16]; 16]) -> (board: Self)
        ensures
            board@ == flatten(grid),
            board.rows() == grid,
    {
        Self(grid)
    }

    /// The node at a position, if the position is on the board.
    pub fn get(&self, position: Position) -> (node: Option<&Node>)
        ensures
            position.in_bounds() ==> node == Some(&self.at(position)),
            !position.in_bounds() ==> node is None,
    {
        if position.x < 16 && position.y < 16 {
            Some(&self.0[position.y as usize][position.x as usize])
        } else {
            None
        }
    }

    /// The node at a position, to be changed, if the position is on the
    /// board.
    pub fn get_mut(&mut self, position: Position) -> (node: Option<&mut Node>)
        ensures
            position.in_bounds() ==> (node matches Some(cell) && *cell == old(self).at(position)
                && final(self)@ == old(self)@.update(position.index(), *final(cell))),
            !position.in_bounds() ==> node is None && *final(self) == *old(self),
    {
        if position.x < 16 && position.y < 16 {
            Some(&mut self.0[position.y as usize][position.x as usize])
        } else {
            None
        }
    }

    /// Puts a node at column `x` of row `y`.
    pub(crate) fn set(&mut self, x: usize, y: usize, node: Node)
        requires
            x < 16,
            y < 16,
        ensures
            final(self)@ == old(self)@.update(y * 16 + x, node),
    {
        self.0[y][x] = node;
        assert(self@ =~= old(self)@.update(y * 16 + x, node));
    }

    /// The number of cells each player owns.
    pub fn color_counts(&self) -> (counts: ColorCounts)
        ensures
            counts.matches_cells(self@),
    {
        let mut red_count: u16 = 0;
        let mut blue_count: u16 = 0;
        let mut yellow_count: u16 = 0;
        let mut green_count: u16 = 0;

        let mut y: usize = 0;
        while y < 16
            invariant
                y <= 16,
                red_count == count_color(self@.take(y * 16), Color::Red),
                blue_count == count_color(self@.take(y * 16), Color::Blue),
                yellow_count == count_color(self@.take(y * 16), Color::Yellow),
                green_count == count_color(self@.take(y * 16), Color::Green),
            decreases 16 - y,
        {
            let mut x: usize = 0;
            while x < 16
                invariant
                    y < 16,
                    x <= 16,
                    red_count == count_color(self@.take(y * 16 + x), Color::Red),
                    blue_count == count_color(self@.take(y * 16 + x), Color::Blue),
                    yellow_count == count_color(self@.take(y * 16 + x), Color::Yellow),
                    green_count == count_color(self@.take(y * 16 + x), Color::Green),
                decreases 16 - x,
            {
                proof {
                    let k = y * 16 + x;
                    assert(self@.take(k + 1).drop_last() =~= self@.take(k));
                    assert(self@.take(k + 1).last() == self.0[y as int][x as int]);
                    lemma_count_color_bound(self@.take(k), Color::Red);
                    lemma_count_color_bound(self@.take(k), Color::Blue);
                    lemma_count_color_bound(self@.take(k), Color::Yellow);
                    lemma_count_color_bound(self@.take(k), Color::Green);
                }
                match self.0[y][x].color() {
                    Some(Color::Red) => red_count += 1,
                    Some(Color::Blue) => blue_count += 1,
                    Some(Color::Yellow) => yellow_count += 1,
                    Some(Color::Green) => green_count += 1,
                    None => {},
                }
                x += 1;
            }
            y += 1;
        }
        assert(self@.take(256) =~= self@);
        let counts = ColorCounts::from_counts(red_count, blue_count, yellow_count, green_count);
        assert forall|color: Color| #[trigger] counts.count(color) == count_color(self@, color) by {
            match color {
                Color::Red => {},
                Color::Blue => {},
                Color::Yellow => {},
                Color::Green => {},
            }
        }
        counts
    }

    /// The rows of the board, top to bottom, each with its sixteen nodes
    /// from left to right.
    pub fn iter(&self) -> (rows: slice::Iter<'_, [Node; 16]>)
        ensures
            rows == vstd::std_specs::slice::spec_slice_iter(
                vstd::array::spec_array_as_slice(&self.rows()),
            ),
            vstd::std_specs::iter::IteratorSpec::remaining(&rows) == self.rows()@.as_ref(),
            self.rows()@.len() == 16,
    {
        broadcast use vstd::std_specs::slice::axiom_spec_slice_iter;
        broadcast use vstd::array::group_array_axioms;

        self.0.iter()
    }
}

} // verus!
