//! How many cells each player owns.

use super::{Color, Node};
use vstd::prelude::*;

verus! {

/// The number of cells in `cells` that the player of the given color owns.
pub open spec fn count_color(cells: Seq<Node>, color: Color) -> nat
    decreases cells.len(),
{
    if cells.len() == 0 {
        0
    } else {
        count_color(cells.drop_last(), color) + if cells.last().spec_color() == Some(color) {
            1nat
        } else {
            0nat
        }
    }
}

/// No more cells are owned than there are cells.
pub proof fn lemma_count_color_bound(cells: Seq<Node>, color: Color)
    ensures
        count_color(cells, color) <= cells.len(),
    decreases cells.len(),
{
    if cells.len() > 0 {
        lemma_count_color_bound(cells.drop_last(), color);
    }
}

/// Replacing one cell changes the count of a color by what the old cell took
/// from it and what the new cell adds to it.
pub proof fn lemma_count_color_update(cells: Seq<Node>, index: int, node: Node, color: Color)
    requires
        0 <= index < cells.len(),
    ensures
        count_color(cells.update(index, node), color) + (if cells[index].spec_color() == Some(
            color,
        ) {
            1nat
        } else {
            0nat
        }) == count_color(cells, color) + (if node.spec_color() == Some(color) {
            1nat
        } else {
            0nat
        }),
    decreases cells.len(),
{
    let updated = cells.update(index, node);
    if index == cells.len() - 1 {
        assert(updated.drop_last() =~= cells.drop_last());
    } else {
        assert(updated.drop_last() =~= cells.drop_last().update(index, node));
        lemma_count_color_update(cells.drop_last(), index, node, color);
    }
}

/// A cell that a player owns is counted for that player.
pub proof fn lemma_count_color_positive(cells: Seq<Node>, index: int, color: Color)
    requires
        0 <= index < cells.len(),
        cells[index].spec_color() == Some(color),
    ensures
        count_color(cells, color) >= 1,
    decreases cells.len(),
{
    if index < cells.len() - 1 {
        lemma_count_color_positive(cells.drop_last(), index, color);
    }
}

/// Replacing a cell by one of the same color leaves every count as it was.
pub proof fn lemma_count_color_same_color(cells: Seq<Node>, index: int, node: Node, color: Color)
    requires
        0 <= index < cells.len(),
        node.spec_color() == cells[index].spec_color(),
    ensures
        count_color(cells.update(index, node), color) == count_color(cells, color),
{
    lemma_count_color_update(cells, index, node, color);
}

/// The number of cells each player owns. A count of zero means that the
/// player is eliminated.
#[derive(Debug)]
pub struct ColorCounts {
    red: u16,
    blue: u16,
    yellow: u16,
    green: u16,
}

impl ColorCounts {
    /// The number of cells counted for the given color.
    pub closed spec fn count(&self, color: Color) -> nat {
        match color {
            Color::Red => self.red as nat,
            Color::Blue => self.blue as nat,
            Color::Yellow => self.yellow as nat,
            Color::Green => self.green as nat,
        }
    }

    /// Whether the counts are those of the given cells.
    pub open spec fn matches_cells(&self, cells: Seq<Node>) -> bool {
        forall|color: Color| #[trigger] self.count(color) == count_color(cells, color)
    }

    /// Whether nothing is counted for the color.
    pub open spec fn spec_is_eliminated(&self, color: Color) -> bool {
        self.count(color) == 0
    }

    /// The color that holds every owned cell, if exactly one color owns any.
    pub open spec fn sole_survivor(&self) -> Option<Color> {
        if !self.spec_is_eliminated(Color::Red) && self.spec_is_eliminated(Color::Blue)
            && self.spec_is_eliminated(Color::Yellow) && self.spec_is_eliminated(Color::Green) {
            Some(Color::Red)
        } else if self.spec_is_eliminated(Color::Red) && !self.spec_is_eliminated(Color::Blue)
            && self.spec_is_eliminated(Color::Yellow) && self.spec_is_eliminated(Color::Green) {
            Some(Color::Blue)
        } else if self.spec_is_eliminated(Color::Red) && self.spec_is_eliminated(Color::Blue)
            && !self.spec_is_eliminated(Color::Yellow) && self.spec_is_eliminated(Color::Green) {
            Some(Color::Yellow)
        } else if self.spec_is_eliminated(Color::Red) && self.spec_is_eliminated(Color::Blue)
            && self.spec_is_eliminated(Color::Yellow) && !self.spec_is_eliminated(Color::Green) {
            Some(Color::Green)
        } else {
            None
        }
    }

    /// Counts from the four numbers.
    pub(crate) fn from_counts(red: u16, blue: u16, yellow: u16, green: u16) -> (counts: Self)
        ensures
            counts.count(Color::Red) == red,
            counts.count(Color::Blue) == blue,
            counts.count(Color::Yellow) == yellow,
            counts.count(Color::Green) == green,
    {
        ColorCounts { red, blue, yellow, green }
    }

    /// The number of cells counted for the given color.
    pub fn get(&self, color: Color) -> (count: u16)
        ensures
            count == self.count(color),
    {
        match color {
            Color::Red => self.red,
            Color::Blue => self.blue,
            Color::Yellow => self.yellow,
            Color::Green => self.green,
        }
    }

    /// Whether nothing is counted for the color.
    #[verifier::when_used_as_spec(spec_is_eliminated)]
    pub fn is_eliminated(&self, color: Color) -> (eliminated: bool)
        ensures
            eliminated == self.spec_is_eliminated(color),
    {
        self.get(color) == 0
    }

    /// Records that one cell went to `increment`, taken from `decrement` if
    /// that is a color.
    pub(crate) fn change(&mut self, increment: Color, decrement: Option<Color>)
        requires
            old(self).count(increment) < u16::MAX,
            decrement matches Some(loser) ==> (loser != increment && old(self).count(loser) >= 1),
        ensures
            final(self).count(increment) == old(self).count(increment) + 1,
            decrement matches Some(loser) ==> final(self).count(loser) == old(self).count(loser)
                - 1,
            forall|color: Color|
                color != increment && decrement != Some(color) ==> #[trigger] final(self).count(
                    color,
                ) == old(self).count(color),
    {
        match increment {
            Color::Red => self.red = self.red + 1,
            Color::Blue => self.blue = self.blue + 1,
            Color::Yellow => self.yellow = self.yellow + 1,
            Color::Green => self.green = self.green + 1,
        }
        match decrement {
            Some(Color::Red) => self.red = self.red - 1,
            Some(Color::Blue) => self.blue = self.blue - 1,
            Some(Color::Yellow) => self.yellow = self.yellow - 1,
            Some(Color::Green) => self.green = self.green - 1,
            None => {},
        }
    }
}

} // verus!
