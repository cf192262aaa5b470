//! The screen the game is played on.

use crate::game::fill::{lemma_index_of_position_at, lemma_position_at_index, position_at};
use crate::game::reach::{carries, walks_along};
use crate::game::selector::{best_before, none_before, select_turn};
use crate::game::{self as game, Color, Direction, Grid, Node, Position, Turn};
use crate::mmio::keys::KeyInput;
use crate::mmio::bits::field_set_to;
use crate::mmio::vram::TextScreenEntry;
use vstd::prelude::*;

verus! {

/// The sides of a cell on which a connection to the neighbour is drawn.
#[derive(Clone, Copy, Debug, PartialEq, Eq, Structural)]
pub struct Edges(pub u8);

impl Edges {
    /// The bit that stands for the side in `direction`.
    pub open spec fn spec_side(direction: Direction) -> Edges {
        match direction {
            Direction::Left => Edges(0b0000_0001),
            Direction::Up => Edges(0b0000_0010),
            Direction::Right => Edges(0b0000_0100),
            Direction::Down => Edges(0b0000_1000),
        }
    }

    /// Whether every side of `other` is a side of `self`.
    pub open spec fn spec_contains(&self, other: Self) -> bool {
        self.0 & other.0 == other.0
    }

    /// Whether the side in `direction` is one of the sides.
    pub open spec fn has(&self, direction: Direction) -> bool {
        self.spec_contains(Self::spec_side(direction))
    }

    /// No side at all.
    pub fn new() -> (edges: Self)
        ensures
            edges.0 == 0,
            forall|direction: Direction| !edges.has(direction),
    {
        assert(0u8 & 1 != 1 && 0u8 & 2 != 2 && 0u8 & 4 != 4 && 0u8 & 8 != 8) by (bit_vector);
        Self(0)
    }

    /// Whether every side of `other` is a side of `self`.
    #[verifier::when_used_as_spec(spec_contains)]
    pub fn contains(&self, other: Self) -> (held: bool)
        ensures
            held == self.spec_contains(other),
    {
        self.0 & other.0 == other.0
    }

    /// The side in `direction`, alone.
    #[verifier::when_used_as_spec(spec_side)]
    pub fn side(direction: Direction) -> (edges: Self)
        ensures
            edges == Self::spec_side(direction),
    {
        match direction {
            Direction::Left => Edges(0b0000_0001),
            Direction::Up => Edges(0b0000_0010),
            Direction::Right => Edges(0b0000_0100),
            Direction::Down => Edges(0b0000_1000),
        }
    }

    /// Adds the sides of `rhs`.
    pub fn insert(&mut self, rhs: Self)
        ensures
            final(self).0 == old(self).0 | rhs.0,
    {
        self.0 = self.0 | rhs.0;
    }

    /// Adding one side adds that side and no other.
    pub proof fn lemma_insert_side(self, added: Direction, asked: Direction)
        ensures
            Edges(self.0 | Self::spec_side(added).0).has(asked) == (self.has(asked) || asked
                == added),
    {
        let bits = self.0;
        let mask = Self::spec_side(added).0;
        let probe = Self::spec_side(asked).0;
        assert(((bits | mask) & probe == probe) == ((bits & probe == probe) || probe == mask))
            by (bit_vector)
            requires
                mask == 1 || mask == 2 || mask == 4 || mask == 8,
                probe == 1 || probe == 2 || probe == 4 || probe == 8,
        ;
    }
}

/// One entry to be written to a map of the display: the entry at column `x`
/// of row `y` of the map that starts `frame` blocks of 2048 bytes after the
/// first one.
#[derive(Clone, Copy, Debug, PartialEq, Eq, Structural)]
pub struct Block {
    pub x: usize,
    pub y: usize,
    pub frame: usize,
    pub entry: TextScreenEntry,
}

/// The map entry that shows `tile` in the colors of `palette`.
pub open spec fn entry_for(tile: u16, palette: u8) -> TextScreenEntry {
    TextScreenEntry(field_set_to(field_set_to(0, 0, 1023, tile), 12, 15, palette as u16))
}

/// The first tile number plus `offset`, but never more than 1023.
pub open spec fn tile_after(tile_start: u16, offset: u16) -> u16 {
    if tile_start + offset > 1023 {
        1023
    } else {
        (tile_start + offset) as u16
    }
}

/// The four blocks of the cell at column `x` of row `y`, all showing `tile`.
pub open spec fn tile_blocks(x: usize, y: usize, tile: u16, frame: usize, palette: u8) -> Seq<
    Block,
> {
    seq![
        Block { x: (x * 2) as usize, y: (y * 2) as usize, frame, entry: entry_for(tile, palette) },
        Block {
            x: (x * 2 + 1) as usize,
            y: (y * 2) as usize,
            frame,
            entry: entry_for(tile, palette),
        },
        Block {
            x: (x * 2) as usize,
            y: (y * 2 + 1) as usize,
            frame,
            entry: entry_for(tile, palette),
        },
        Block {
            x: (x * 2 + 1) as usize,
            y: (y * 2 + 1) as usize,
            frame,
            entry: entry_for(tile, palette),
        },
    ]
}

/// The four blocks of the cell at column `x` of row `y`, showing the four
/// tiles from `tile_start` on.
pub open spec fn tile_group_blocks(
    x: usize,
    y: usize,
    tile_start: u16,
    frame: usize,
    palette: u8,
) -> Seq<Block> {
    seq![
        Block {
            x: (x * 2) as usize,
            y: (y * 2) as usize,
            frame,
            entry: entry_for(tile_start, palette),
        },
        Block {
            x: (x * 2 + 1) as usize,
            y: (y * 2) as usize,
            frame,
            entry: entry_for(tile_after(tile_start, 1), palette),
        },
        Block {
            x: (x * 2) as usize,
            y: (y * 2 + 1) as usize,
            frame,
            entry: entry_for(tile_after(tile_start, 2), palette),
        },
        Block {
            x: (x * 2 + 1) as usize,
            y: (y * 2 + 1) as usize,
            frame,
            entry: entry_for(tile_after(tile_start, 3), palette),
        },
    ]
}

/// Sets an individual screenblock.
///
/// This is basically just writing a single 8x8 tile.
pub fn set_block(x: usize, y: usize, tile: u16, frame: usize, palette: u8) -> (block: Block)
    requires
        tile <= 1023,
        palette <= 15,
    ensures
        block == (Block { x, y, frame, entry: entry_for(tile, palette) }),
{
    Block { x, y, frame, entry: TextScreenEntry::new().with_tile(tile).with_palette(palette) }
}

/// Set the tiles for an (x, y) position to a single tile.
///
/// This tile will be used four times, as an (x, y) position occupies four tile spaces.
pub fn set_tile(x: usize, y: usize, tile: u16, frame: usize, palette: u8) -> (blocks: [Block; 4])
    requires
        x < 16,
        y < 16,
        tile <= 1023,
        palette <= 15,
    ensures
        blocks@ == tile_blocks(x, y, tile, frame, palette),
{
    let blocks = [
        set_block(x * 2, y * 2, tile, frame, palette),
        set_block(x * 2 + 1, y * 2, tile, frame, palette),
        set_block(x * 2, y * 2 + 1, tile, frame, palette),
        set_block(x * 2 + 1, y * 2 + 1, tile, frame, palette),
    ];
    assert(blocks@ =~= tile_blocks(x, y, tile, frame, palette));
    blocks
}

/// The tile `offset` after `tile`, or the last tile if there is none.
fn next_tile(tile: u16, offset: u16) -> (next: u16)
    requires
        tile <= 1023,
        offset <= 3,
    ensures
        next == tile_after(tile, offset),
        next <= 1023,
{
    if tile + offset > 1023 {
        1023
    } else {
        tile + offset
    }
}

/// Set the tiles for an (x, y) position to group of four sequential tiles.
pub fn set_tile_group(x: usize, y: usize, tile_start: u16, frame: usize, palette: u8) -> (blocks:
    [Block; 4])
    requires
        x < 16,
        y < 16,
        tile_start <= 1023,
        palette <= 15,
    ensures
        blocks@ == tile_group_blocks(x, y, tile_start, frame, palette),
{
    let blocks = [
        set_block(x * 2, y * 2, tile_start, frame, palette),
        set_block(x * 2 + 1, y * 2, next_tile(tile_start, 1), frame, palette),
        set_block(x * 2, y * 2 + 1, next_tile(tile_start, 2), frame, palette),
        set_block(x * 2 + 1, y * 2 + 1, next_tile(tile_start, 3), frame, palette),
    ];
    assert(blocks@ =~= tile_group_blocks(x, y, tile_start, frame, palette));
    blocks
}

/// Where a cell of the board lies in the maps of the display: the board is
/// shifted by half its size in both directions, and a cell that leaves a map
/// on the right or at the bottom enters the next map there.
pub open spec fn screen_location(x: usize, y: usize, frame: usize) -> (usize, usize, usize) {
    (
        (if x + 8 >= 16 {
            x + 8 - 16
        } else {
            x + 8
        }) as usize,
        (if y + 8 >= 16 {
            y + 8 - 16
        } else {
            y + 8
        }) as usize,
        (frame + if x + 8 >= 16 {
            1int
        } else {
            0int
        } + if y + 8 >= 16 {
            2int
        } else {
            0int
        }) as usize,
    )
}

// Returns x, y, and frame.
pub fn get_screen_location(x: usize, y: usize, frame: usize) -> (location: (usize, usize, usize))
    requires
        x + 8 <= usize::MAX,
        y + 8 <= usize::MAX,
        frame + 3 <= usize::MAX,
    ensures
        location == screen_location(x, y, frame),
{
    let mut x = x;
    let mut y = y;
    let mut frame = frame;
    x = x + 8;
    y = y + 8;
    if x >= 16 {
        x -= 16;
        frame += 1;
    }
    if y >= 16 {
        y -= 16;
        frame += 2;
    }
    (x, y, frame)
}

/// The palette a node of the given owner is drawn in.
pub open spec fn spec_palette_of(alignment: Option<Color>) -> u8 {
    match alignment {
        Some(Color::Red) => 1,
        Some(Color::Blue) => 2,
        Some(Color::Yellow) => 3,
        Some(Color::Green) => 4,
        None => 0,
    }
}

/// The palette a node of the given owner is drawn in.
#[verifier::when_used_as_spec(spec_palette_of)]
pub fn palette_of(alignment: Option<Color>) -> (palette: u8)
    ensures
        palette == spec_palette_of(alignment),
        palette <= 4,
{
    match alignment {
        Some(Color::Red) => 1,
        Some(Color::Blue) => 2,
        Some(Color::Yellow) => 3,
        Some(Color::Green) => 4,
        None => 0,
    }
}

/// The first of the four tiles of an arrow pointing in `direction`.
pub open spec fn arrow_tile(direction: Direction) -> u16 {
    match direction {
        Direction::Left => 9,
        Direction::Right => 5,
        Direction::Down => 13,
        Direction::Up => 17,
    }
}

/// The first of the four tiles of a redirector pointing in `direction`.
pub open spec fn super_arrow_tile(direction: Direction) -> u16 {
    match direction {
        Direction::Left => 42,
        Direction::Right => 50,
        Direction::Down => 54,
        Direction::Up => 46,
    }
}

/// The first tile a node is drawn with. An empty cell shows tile 0 four
/// times; every other node shows four tiles in a row. Secret nodes look like
/// walls until a player owns them.
pub open spec fn spec_node_tile(node: Node) -> u16 {
    match node {
        Node::Empty => 0,
        Node::Wall => 1,
        Node::Arrow { direction, .. } => arrow_tile(direction),
        Node::AllDirection { alignment } => if alignment is Some {
            38
        } else {
            1
        },
        Node::SuperArrow { alignment, direction } => if alignment is Some {
            super_arrow_tile(direction)
        } else {
            1
        },
    }
}

/// The palette a node is drawn in: that of its owner.
pub open spec fn spec_node_palette(node: Node) -> u8 {
    spec_palette_of(node.spec_color())
}

/// The four blocks that show `node` in the cell at column `x` of row `y` of
/// the map `frame`.
pub open spec fn node_blocks(node: Node, x: usize, y: usize, frame: usize) -> Seq<Block> {
    if node is Empty {
        tile_blocks(x, y, 0, frame, 0)
    } else {
        tile_group_blocks(x, y, spec_node_tile(node), frame, spec_node_palette(node))
    }
}

/// The blocks that show a node, and the palette its frame is drawn in.
pub fn draw_node(node: &Node, x: usize, y: usize, frame: usize) -> (drawn: ([Block; 4], u8))
    requires
        x < 16,
        y < 16,
    ensures
        drawn.0@ == node_blocks(*node, x, y, frame),
        drawn.1 == spec_node_palette(*node),
        drawn.1 <= 4,
{
    match node {
        Node::Empty => (set_tile(x, y, 0, frame, 0), 0),
        Node::Wall => (set_tile_group(x, y, 1, frame, 0), 0),
        Node::Arrow { direction, alignment } => {
            let palette = palette_of(*alignment);
            let blocks = match direction {
                Direction::Left => set_tile_group(x, y, 9, frame, palette),
                Direction::Right => set_tile_group(x, y, 5, frame, palette),
                Direction::Down => set_tile_group(x, y, 13, frame, palette),
                Direction::Up => set_tile_group(x, y, 17, frame, palette),
            };
            (blocks, palette)
        },
        Node::AllDirection { alignment } => {
            let palette = palette_of(*alignment);
            let blocks = if alignment.is_some() {
                set_tile_group(x, y, 38, frame, palette)
            } else {
                set_tile_group(x, y, 1, frame, palette)
            };
            (blocks, palette)
        },
        Node::SuperArrow { alignment, direction } => {
            let palette = palette_of(*alignment);
            let blocks = if alignment.is_some() {
                match direction {
                    Direction::Left => set_tile_group(x, y, 42, frame, palette),
                    Direction::Right => set_tile_group(x, y, 50, frame, palette),
                    Direction::Down => set_tile_group(x, y, 54, frame, palette),
                    Direction::Up => set_tile_group(x, y, 46, frame, palette),
                }
            } else {
                set_tile_group(x, y, 1, frame, palette)
            };
            (blocks, palette)
        },
    }
}

/// The tile of one corner of the frame round a cell: the first tile of the
/// corner, plus one if the frame is open to the side, plus two if it is open
/// above or below.
pub open spec fn corner_tile(base: u16, sideways: bool, upright: bool) -> u16 {
    (base + if sideways {
        1int
    } else {
        0int
    } + if upright {
        2int
    } else {
        0int
    }) as u16
}

/// The four blocks of the frame round the cell at column `x` of row `y`,
/// open on the sides for which the flag is set: top left, top right, bottom
/// left, bottom right.
pub open spec fn frame_blocks(
    left: bool,
    up: bool,
    right: bool,
    down: bool,
    x: usize,
    y: usize,
    frame: usize,
    palette: u8,
) -> Seq<Block> {
    seq![
        Block {
            x: (2 * x) as usize,
            y: (2 * y) as usize,
            frame,
            entry: entry_for(corner_tile(21, left, up), palette),
        },
        Block {
            x: (2 * x + 1) as usize,
            y: (2 * y) as usize,
            frame,
            entry: entry_for(corner_tile(25, right, up), palette),
        },
        Block {
            x: (2 * x) as usize,
            y: (2 * y + 1) as usize,
            frame,
            entry: entry_for(corner_tile(29, left, down), palette),
        },
        Block {
            x: (2 * x + 1) as usize,
            y: (2 * y + 1) as usize,
            frame,
            entry: entry_for(corner_tile(33, right, down), palette),
        },
    ]
}

/// One corner of the frame round a cell.
fn draw_corner(
    x: usize,
    y: usize,
    base: u16,
    sideways: bool,
    upright: bool,
    frame: usize,
    palette: u8,
) -> (block: Block)
    requires
        base <= 1020,
        palette <= 15,
    ensures
        block == (Block { x, y, frame, entry: entry_for(corner_tile(base, sideways, upright), palette) }),
{
    match (sideways, upright) {
        (false, false) => set_block(x, y, base, frame, palette),
        (true, false) => set_block(x, y, base + 1, frame, palette),
        (false, true) => set_block(x, y, base + 2, frame, palette),
        (true, true) => set_block(x, y, base + 3, frame, palette),
    }
}

/// The frame round a cell, corner by corner.
pub fn draw_frame(edges: Edges, x: usize, y: usize, frame: usize, palette: u8) -> (blocks: [Block;
    4])
    requires
        x < 16,
        y < 16,
        palette <= 15,
    ensures
        blocks@ == frame_blocks(
            edges.has(Direction::Left),
            edges.has(Direction::Up),
            edges.has(Direction::Right),
            edges.has(Direction::Down),
            x,
            y,
            frame,
            palette,
        ),
{
    let left = edges.contains(Edges::side(Direction::Left));
    let up = edges.contains(Edges::side(Direction::Up));
    let right = edges.contains(Edges::side(Direction::Right));
    let down = edges.contains(Edges::side(Direction::Down));
    // Handle each corner of the edge tile separately.
    let blocks = [
        // Top left
        draw_corner(2 * x, 2 * y, 21, left, up, frame, palette),
        // Top right
        draw_corner(2 * x + 1, 2 * y, 25, right, up, frame, palette),
        // Bottom left
        draw_corner(2 * x, 2 * y + 1, 29, left, down, frame, palette),
        // Bottom right
        draw_corner(2 * x + 1, 2 * y + 1, 33, right, down, frame, palette),
    ];
    assert(blocks@ =~= frame_blocks(left, up, right, down, x, y, frame, palette));
    blocks
}

/// Whether a connection is drawn on the side of `position` in `direction`:
/// a walk goes on from `position` to the neighbour there, or from that
/// neighbour to `position`.
pub open spec fn linked(cells: Seq<Node>, position: Position, direction: Direction) -> bool {
    walks_along(cells, position, direction) || (position.spec_step(direction) matches Some(
        neighbour,
    ) && walks_along(cells, neighbour, direction.spec_opposite()))
}

/// Whether a walk goes on from `node`, standing at `position`, to the
/// neighbour in `direction`.
pub open spec fn leads(node: Node, position: Position, direction: Direction) -> bool {
    &&& carries(node)
    &&& position.spec_step(direction) is Some
    &&& node.spec_direction() == Some(direction) || node is AllDirection
}

/// Whether a connection is drawn on the side of `position` in `direction`
/// for a walk that goes on from one of the first `done` cells of the board.
pub open spec fn linked_so_far(
    cells: Seq<Node>,
    position: Position,
    direction: Direction,
    done: int,
) -> bool {
    (position.index() < done && walks_along(cells, position, direction)) || (position.spec_step(
        direction,
    ) matches Some(neighbour) && neighbour.index() < done && walks_along(
        cells,
        neighbour,
        direction.spec_opposite(),
    ))
}

/// Draws the connection from the cell at column `x` of row `y` to its
/// neighbour in `direction` into the table of edges, on both cells. There is
/// no connection off the board.
fn link(edges: &mut [[Edges; 16]; 16], x: usize, y: usize, direction: Direction)
    requires
        x < 16,
        y < 16,
    ensures
        forall|position: Position, side: Direction|
            position.in_bounds() ==> #[trigger] final(edges)[position.y as int][position.x as int].has(
                side,
            ) == (old(edges)[position.y as int][position.x as int].has(side) || ((Position {
                x: x as u8,
                y: y as u8,
            }).spec_step(direction) matches Some(neighbour) && ((position == (Position {
                x: x as u8,
                y: y as u8,
            }) && side == direction) || (position == neighbour && side
                == direction.spec_opposite())))),
{
    let position = Position { x: x as u8, y: y as u8 };
    if let Some(neighbour) = position.step(direction) {
        let ghost before = *edges;
        let mut here = edges[y][x];
        here.insert(Edges::side(direction));
        edges[y][x] = here;
        let ghost between = *edges;
        let mut there = edges[neighbour.y as usize][neighbour.x as usize];
        there.insert(Edges::side(direction.opposite()));
        edges[neighbour.y as usize][neighbour.x as usize] = there;
        proof {
            assert forall|asked: Position, side: Direction|
                asked.in_bounds() implies #[trigger] edges[asked.y as int][asked.x as int].has(side)
                == (before[asked.y as int][asked.x as int].has(side) || ((asked == position && side
                == direction) || (asked == neighbour && side == direction.spec_opposite()))) by {
                before[y as int][x as int].lemma_insert_side(direction, side);
                between[neighbour.y as int][neighbour.x as int].lemma_insert_side(
                    direction.spec_opposite(),
                    side,
                );
            }
        }
    }
}

/// The sides of every cell of the board on which a connection is drawn.
pub fn compute_edges(grid: &Grid) -> (edges: [[Edges; 16]; 16])
    ensures
        forall|position: Position, side: Direction|
            position.in_bounds() ==> #[trigger] edges[position.y as int][position.x as int].has(
                side,
            ) == linked(grid@, position, side),
{
    // Calculate node edges.
    let mut edges = [[Edges::new(); 16]; 16];
    proof {
        grid.lemma_view_is_flat();
    }
    for y in 0..16usize
        invariant
            grid@.len() == 256,
            forall|position: Position, side: Direction|
                position.in_bounds() ==> #[trigger] edges[position.y as int][position.x as int].has(
                    side,
                ) == linked_so_far(grid@, position, side, y * 16),
    {
        for x in 0..16usize
            invariant
                y < 16,
                grid@.len() == 256,
                forall|position: Position, side: Direction|
                    position.in_bounds() ==> #[trigger] edges[position.y as int][position.x as int].has(
                        side,
                    ) == linked_so_far(grid@, position, side, y * 16 + x),
        {
            let here = Position { x: x as u8, y: y as u8 };
            let node: Node = match grid.get(here) {
                Some(node) => *node,
                None => Node::Empty,
            };
            let ghost before = edges;
            if !node.is_hidden() {
                if let Some(direction) = node.direction() {
                    link(&mut edges, x, y, direction);
                } else if node.all_directions() {
                    link(&mut edges, x, y, Direction::Left);
                    link(&mut edges, x, y, Direction::Up);
                    link(&mut edges, x, y, Direction::Right);
                    link(&mut edges, x, y, Direction::Down);
                }
            }
            proof {
                assert forall|position: Position, side: Direction|
                    position.in_bounds() implies #[trigger] edges[position.y as int][position.x as int].has(
                    side,
                ) == linked_so_far(grid@, position, side, y * 16 + x + 1) by {
                    assert(before[position.y as int][position.x as int].has(side) == linked_so_far(
                        grid@,
                        position,
                        side,
                        y * 16 + x,
                    ));
                    assert(edges[position.y as int][position.x as int].has(side) == (
                    before[position.y as int][position.x as int].has(side) || (position == here
                        && leads(node, here, side)) || (position.spec_step(side) == Some(here)
                        && leads(node, here, side.spec_opposite()))));
                }
            }
        }
    }
    edges
}

/// The eight blocks that show the cell at place `index` of the board: the
/// four of its node, then the four of the frame round it.
pub open spec fn cell_blocks(cells: Seq<Node>, index: int) -> Seq<Block> {
    let position = position_at(index);
    let (x, y, frame) = screen_location(position.x as usize, position.y as usize, 24);
    node_blocks(cells[index], x, y, frame) + frame_blocks(
        linked(cells, position, Direction::Left),
        linked(cells, position, Direction::Up),
        linked(cells, position, Direction::Right),
        linked(cells, position, Direction::Down),
        x,
        y,
        (frame - 8) as usize,
        spec_node_palette(cells[index]),
    )
}

/// Everything that is written to the display to show the board: the blocks
/// of its cells, row by row.
pub open spec fn drawn(cells: Seq<Node>) -> Seq<Block> {
    Seq::new(2048, |place: int| cell_blocks(cells, place / 8)[place % 8])
}

/// Everything that is to be written to the display to show the board.
pub fn draw_board(grid: &Grid) -> (blocks: Vec<Block>)
    ensures
        blocks@ == drawn(grid@),
{
    let edges = compute_edges(grid);
    let mut blocks: Vec<Block> = Vec::new();
    proof {
        grid.lemma_view_is_flat();
    }
    for y in 0..16usize
        invariant
            grid@.len() == 256,
            blocks@.len() == y * 16 * 8,
            forall|place: int|
                0 <= place < blocks@.len() ==> blocks@[place] == cell_blocks(grid@, place / 8)[place
                    % 8],
            forall|position: Position, side: Direction|
                position.in_bounds() ==> #[trigger] edges[position.y as int][position.x as int].has(
                    side,
                ) == linked(grid@, position, side),
    {
        for x in 0..16usize
            invariant
                y < 16,
                grid@.len() == 256,
                blocks@.len() == (y * 16 + x) * 8,
                forall|place: int|
                    0 <= place < blocks@.len() ==> blocks@[place] == cell_blocks(
                        grid@,
                        place / 8,
                    )[place % 8],
                forall|position: Position, side: Direction|
                    position.in_bounds() ==> #[trigger] edges[position.y as int][position.x as int].has(
                        side,
                    ) == linked(grid@, position, side),
        {
            let here = Position { x: x as u8, y: y as u8 };
            let node: Node = match grid.get(here) {
                Some(node) => *node,
                None => Node::Empty,
            };
            let sides = edges[y][x];
            let (screen_x, screen_y, frame) = get_screen_location(x, y, 24);

            // Draw node.
            let (cell, palette) = draw_node(&node, screen_x, screen_y, frame);
            let corners = draw_frame(sides, screen_x, screen_y, frame - 8, palette);
            let ghost before = blocks@;
            blocks.push(cell[0]);
            blocks.push(cell[1]);
            blocks.push(cell[2]);
            blocks.push(cell[3]);
            blocks.push(corners[0]);
            blocks.push(corners[1]);
            blocks.push(corners[2]);
            blocks.push(corners[3]);
            proof {
                let index = y * 16 + x;
                lemma_position_at_index(here);
                assert(sides.has(Direction::Left) == linked(grid@, here, Direction::Left));
                assert(sides.has(Direction::Up) == linked(grid@, here, Direction::Up));
                assert(sides.has(Direction::Right) == linked(grid@, here, Direction::Right));
                assert(sides.has(Direction::Down) == linked(grid@, here, Direction::Down));
                assert(cell@ + corners@ =~= cell_blocks(grid@, index as int));
                assert(blocks@ =~= before + (cell@ + corners@));
                assert forall|place: int| 0 <= place < blocks@.len() implies blocks@[place]
                    == cell_blocks(grid@, place / 8)[place % 8] by {
                    if place >= before.len() {
                        assert(place / 8 == index);
                        assert(blocks@[place] == (cell@ + corners@)[place - before.len()]);
                    }
                }
            }
        }
    }
    assert(blocks@ =~= drawn(grid@));
    blocks
}

/// Where a scrolling offset that stands at `current` stands one frame later
/// on its way to `target`: `velocity` nearer, or one nearer if it is less
/// than `velocity` away.
pub open spec fn approach(current: u16, target: u16, velocity: u16) -> u16 {
    if current > target {
        if current - target >= velocity {
            (current - velocity) as u16
        } else {
            (current - 1) as u16
        }
    } else if current < target {
        if target - current >= velocity {
            (current + velocity) as u16
        } else {
            (current + 1) as u16
        }
    } else {
        current
    }
}

/// The scrolling offset that centres the display on a position.
pub open spec fn pixel_location(position: Position) -> (u16, u16) {
    ((position.x * 8 + 76) as u16, (position.y * 12 + 86) as u16)
}

/// A distance on the display as the hardware takes it: sixteen bits, a
/// negative distance counted down from the top.
pub open spec fn wrapped(distance: int) -> u16 {
    if distance < 0 {
        (distance + 65536) as u16
    } else {
        distance as u16
    }
}

/// How far right of the left edge of the display the sprite on `position`
/// stands when the scrolling offset is `offset`.
pub open spec fn sprite_x(offset: (u16, u16), position: Position) -> int {
    (position.x * 8 + 52) + (position.x * 8 + 76) - offset.0
}

/// How far below the top edge of the display the sprite on `position`
/// stands when the scrolling offset is `offset`.
pub open spec fn sprite_y(offset: (u16, u16), position: Position) -> int {
    (position.y * 4 + 42) + (position.y * 12 + 86) - offset.1
}

/// Where the sprite on `position` is to be shown, if any part of it is on
/// the display.
pub open spec fn sprite_location(offset: (u16, u16), position: Position) -> Option<(u16, u16)> {
    if -32 <= sprite_x(offset, position) <= 480 && -32 <= sprite_y(offset, position) <= 224 {
        Some((wrapped(sprite_x(offset, position)), wrapped(sprite_y(offset, position))))
    } else {
        None
    }
}

/// The scrolling offset of the board, which follows the cursor.
#[derive(Debug)]
pub struct ScrollAccelerator {
    position: (u16, u16),
}

impl ScrollAccelerator {
    /// The offset never passes the centre of any position.
    #[verifier::type_invariant]
    spec fn in_range(self) -> bool {
        self.position.0 <= 2116 && self.position.1 <= 3146
    }

    /// The scrolling offset.
    pub closed spec fn view(&self) -> (u16, u16) {
        self.position
    }

    /// An offset that centres the display on `position`.
    pub fn new(position: Position) -> (accelerator: Self)
        ensures
            accelerator@ == pixel_location(position),
    {
        Self { position: Self::position_to_pixel_location(position) }
    }

    /// The scrolling offset that centres the display on a position.
    pub fn position_to_pixel_location(position: Position) -> (location: (u16, u16))
        ensures
            location == pixel_location(position),
    {
        (position.x as u16 * 8 + 76, position.y as u16 * 12 + 86)
    }

    /// The scrolling offset, to be written to the display.
    pub fn offset(&self) -> (offset: (u16, u16))
        ensures
            offset == self@,
    {
        self.position
    }

    /// Moves the offset one frame nearer to the centre of `position`, and
    /// says whether it has arrived.
    pub fn scroll_to_position(&mut self, position: Position, velocity: u16) -> (arrived: bool)
        ensures
            final(self)@ == (
                approach(old(self)@.0, pixel_location(position).0, velocity),
                approach(old(self)@.1, pixel_location(position).1, velocity),
            ),
            arrived == (final(self)@ == pixel_location(position)),
    {
        proof {
            use_type_invariant(&*self);
        }
        let target = Self::position_to_pixel_location(position);
        let x = if self.position.0 > target.0 {
            if self.position.0 - target.0 >= velocity {
                self.position.0 - velocity
            } else {
                self.position.0 - 1
            }
        } else if self.position.0 < target.0 {
            if target.0 - self.position.0 >= velocity {
                self.position.0 + velocity
            } else {
                self.position.0 + 1
            }
        } else {
            self.position.0
        };
        let y = if self.position.1 > target.1 {
            if self.position.1 - target.1 >= velocity {
                self.position.1 - velocity
            } else {
                self.position.1 - 1
            }
        } else if self.position.1 < target.1 {
            if target.1 - self.position.1 >= velocity {
                self.position.1 + velocity
            } else {
                self.position.1 + 1
            }
        } else {
            self.position.1
        };
        self.position = (x, y);
        target.0 == self.position.0 && target.1 == self.position.1
    }

    /// Where the sprite on `position` is to be shown, if any part of it is
    /// on the display.
    pub fn relative_sprite_location(&self, position: Position) -> (location: Option<(u16, u16)>)
        ensures
            location == sprite_location(self@, position),
    {
        proof {
            use_type_invariant(self);
        }
        let target = (position.x as u16 * 8 + 52, position.y as u16 * 4 + 42);
        let top_left = Self::position_to_pixel_location(position);

        let x = {
            let x = target.0.wrapping_add_signed(top_left.0 as i16 - self.position.0 as i16);
            if x.wrapping_add(32) > 512 {
                return None;
            }
            x
        };
        let y = {
            let y = target.1.wrapping_add_signed(top_left.1 as i16 - self.position.1 as i16);
            if y.wrapping_add(32) > 256 {
                return None;
            }
            y
        };

        Some((x, y))
    }
}

/// The cursor never leaves the board.
pub open spec fn max_position() -> Position {
    Position { x: 15, y: 15 }
}

/// Whether `key` is held now and was not held a frame ago.
pub open spec fn newly_held(prev_keys: KeyInput, keys: KeyInput, key: KeyInput) -> bool {
    keys.spec_contains(key) && !prev_keys.spec_contains(key)
}

/// Where the cursor stands after the direction keys that are newly held
/// have moved it: right, then up, then left, then down.
pub open spec fn moved_cursor(cursor: Position, prev_keys: KeyInput, keys: KeyInput) -> Position {
    let right = if newly_held(prev_keys, keys, KeyInput::spec_right()) {
        cursor.spec_move_saturating(Direction::Right, max_position())
    } else {
        cursor
    };
    let up = if newly_held(prev_keys, keys, KeyInput::spec_up()) {
        right.spec_move_saturating(Direction::Up, max_position())
    } else {
        right
    };
    let left = if newly_held(prev_keys, keys, KeyInput::spec_left()) {
        up.spec_move_saturating(Direction::Left, max_position())
    } else {
        up
    };
    if newly_held(prev_keys, keys, KeyInput::spec_down()) {
        left.spec_move_saturating(Direction::Down, max_position())
    } else {
        left
    }
}

/// What the program is to do after a frame of the game screen.
#[derive(Clone, Copy, Debug, PartialEq, Eq, Structural)]
pub enum Frame {
    /// The player owns no cell any more: the game is lost.
    Lost,
    /// The player's move has left the player alone on the board: the board
    /// is to be drawn, and the game is won.
    Won,
    /// It is the player's turn. The scrolling offset and the cursor are to
    /// be shown, and the board is to be drawn again if `redraw` is set.
    Player { redraw: bool },
    /// Another player has rotated the node at `rotate`. The display is to
    /// scroll there, then the board is to be drawn again.
    Bot { rotate: Position },
    /// It is another player's turn, and that player owns no node that can
    /// be rotated.
    Stuck,
}

/// The state of the game screen.
pub struct GameState {
    pub cursor: Position,
    pub prev_keys: KeyInput,
    pub state: game::Game,
    pub player_color: game::Color,
    pub offset: (u16, u16),
    pub scroll_at_start_of_player_turn: bool,
}

/// The game screen: the game, the cursor and the scrolling of the display.
#[derive(Debug)]
pub struct Game {
    cursor: Position,
    prev_keys: KeyInput,
    state: game::Game,
    player_color: game::Color,
    scroll_accelerator: ScrollAccelerator,
    scroll_at_start_of_player_turn: bool,
}

impl Game {
    /// The state of the screen.
    pub closed spec fn view(&self) -> GameState {
        GameState {
            cursor: self.cursor,
            prev_keys: self.prev_keys,
            state: self.state,
            player_color: self.player_color,
            offset: self.scroll_accelerator@,
            scroll_at_start_of_player_turn: self.scroll_at_start_of_player_turn,
        }
    }

    /// The screen at the start of `game`, with the display centred on the
    /// cursor.
    pub fn new(cursor: Position, game: game::Game, player_color: game::Color) -> (screen: Self)
        ensures
            screen@ == (GameState {
                cursor,
                prev_keys: KeyInput::spec_none(),
                state: game,
                player_color,
                offset: pixel_location(cursor),
                scroll_at_start_of_player_turn: false,
            }),
    {
        Self {
            cursor,
            prev_keys: KeyInput::none(),
            state: game,
            player_color,
            scroll_accelerator: ScrollAccelerator::new(cursor),
            scroll_at_start_of_player_turn: false,
        }
    }

    /// Everything that is to be written to the display to show the board.
    pub fn draw(&self) -> (blocks: Vec<Block>)
        ensures
            blocks@ == drawn(self@.state.spec_grid()@),
    {
        draw_board(self.state.grid())
    }

    /// The game that is played.
    pub fn state(&self) -> (state: &game::Game)
        ensures
            *state == self@.state,
    {
        &self.state
    }

    /// The cursor.
    pub fn cursor(&self) -> (cursor: Position)
        ensures
            cursor == self@.cursor,
    {
        self.cursor
    }

    /// The scrolling offset, to be written to the display.
    pub fn scroll_offset(&self) -> (offset: (u16, u16))
        ensures
            offset == self@.offset,
    {
        self.scroll_accelerator.offset()
    }

    /// Where the cursor is to be shown, if any part of it is on the display.
    pub fn cursor_sprite(&self) -> (location: Option<(u16, u16)>)
        ensures
            location == sprite_location(self@.offset, self@.cursor),
    {
        self.scroll_accelerator.relative_sprite_location(self.cursor)
    }

    /// Scrolls one frame nearer to `position` at twice the usual speed, as
    /// the display does after another player's move, and says whether it
    /// has arrived.
    pub fn scroll_to_move(&mut self, position: Position) -> (arrived: bool)
        ensures
            final(self)@ == (GameState {
                offset: (
                    approach(old(self)@.offset.0, pixel_location(position).0, 2),
                    approach(old(self)@.offset.1, pixel_location(position).1, 2),
                ),
                ..old(self)@
            }),
            arrived == (final(self)@.offset == pixel_location(position)),
    {
        self.scroll_accelerator.scroll_to_position(position, 2)
    }

    /// One frame of the game, with `keys` held.
    ///
    /// If the player is eliminated the game is lost. On the player's turn
    /// the direction keys move the cursor and the A button rotates the node
    /// under it; a move that leaves the player alone on the board wins the
    /// game at once, and otherwise the display scrolls on towards the
    /// cursor. On another player's turn that player's best move is made.
    pub fn run(&mut self, keys: KeyInput) -> (frame: Frame)
        requires
            old(self)@.state.wf(),
        ensures
            final(self)@.state.wf(),
            final(self)@.player_color == old(self)@.player_color,
            old(self)@.state.counts().spec_is_eliminated(old(self)@.player_color) ==> frame
                == Frame::Lost && final(self)@ == old(self)@,
            !old(self)@.state.counts().spec_is_eliminated(old(self)@.player_color) && old(
                self,
            )@.state.spec_turn_color() == old(self)@.player_color ==> player_frame(
                old(self)@,
                keys,
                final(self)@,
                frame,
            ),
            !old(self)@.state.counts().spec_is_eliminated(old(self)@.player_color) && old(
                self,
            )@.state.spec_turn_color() != old(self)@.player_color ==> bot_frame(
                old(self)@,
                final(self)@,
                frame,
            ),
    {
        if self.state.is_eliminated(self.player_color) {
            return Frame::Lost;
        }
        if self.state.turn_color() == self.player_color {
            // Read keys for each frame.
            let mut state_changed = false;

            if keys.contains(KeyInput::right()) && !self.prev_keys.contains(KeyInput::right()) {
                self.cursor = self.cursor.move_saturating(
                    Direction::Right,
                    Position { x: 15, y: 15 },
                );
            }
            if keys.contains(KeyInput::up()) && !self.prev_keys.contains(KeyInput::up()) {
                self.cursor = self.cursor.move_saturating(Direction::Up, Position { x: 15, y: 15 });
            }
            if keys.contains(KeyInput::left()) && !self.prev_keys.contains(KeyInput::left()) {
                self.cursor = self.cursor.move_saturating(
                    Direction::Left,
                    Position { x: 15, y: 15 },
                );
            }
            if keys.contains(KeyInput::down()) && !self.prev_keys.contains(KeyInput::down()) {
                self.cursor = self.cursor.move_saturating(
                    Direction::Down,
                    Position { x: 15, y: 15 },
                );
            }
            if keys.contains(KeyInput::a()) && !self.prev_keys.contains(KeyInput::a()) {
                let result = self.state.execute_turn(Turn { rotate: self.cursor });
                if let Ok(winner) = result {
                    state_changed = true;
                    if winner.is_some() {
                        return Frame::Won;
                    }
                }
            }
            self.prev_keys = keys;

            // Scroll.
            if self.scroll_at_start_of_player_turn {
                self.scroll_at_start_of_player_turn = !self.scroll_accelerator.scroll_to_position(
                    self.cursor,
                    2,
                );
            } else {
                self.scroll_accelerator.scroll_to_position(self.cursor, 1);
            }

            Frame::Player { redraw: state_changed }
        } else {
            // Determine the best move.
            match select_turn(&self.state) {
                Some(turn) => {
                    let rotate = turn.rotate;
                    let _ = self.state.execute_turn(turn);
                    self.scroll_at_start_of_player_turn = true;
                    Frame::Bot { rotate }
                },
                None => Frame::Stuck,
            }
        }
    }
}

/// Whether `after` and `frame` are what a frame of the player's turn makes
/// of `before` with `keys` held.
pub open spec fn player_frame(
    before: GameState,
    keys: KeyInput,
    after: GameState,
    frame: Frame,
) -> bool {
    let cursor = moved_cursor(before.cursor, before.prev_keys, keys);
    let rotates = newly_held(before.prev_keys, keys, KeyInput::spec_a()) && before.state.may_rotate(
        cursor,
    );
    let target = pixel_location(cursor);
    let velocity = if before.scroll_at_start_of_player_turn {
        2u16
    } else {
        1u16
    };
    let scrolled = (
        approach(before.offset.0, target.0, velocity),
        approach(before.offset.1, target.1, velocity),
    );
    &&& after.cursor == cursor
    &&& rotates ==> after.state.follows(&before.state, cursor)
    &&& !rotates ==> after.state == before.state
    &&& if rotates && after.state.counts().sole_survivor() is Some {
        &&& frame == Frame::Won
        &&& after.prev_keys == before.prev_keys
        &&& after.offset == before.offset
        &&& after.scroll_at_start_of_player_turn == before.scroll_at_start_of_player_turn
    } else {
        &&& frame == Frame::Player { redraw: rotates }
        &&& after.prev_keys == keys
        &&& after.offset == scrolled
        &&& after.scroll_at_start_of_player_turn == (before.scroll_at_start_of_player_turn
            && scrolled != target)
    }
}

/// Whether `after` and `frame` are what a frame of another player's turn
/// makes of `before`.
pub open spec fn bot_frame(before: GameState, after: GameState, frame: Frame) -> bool {
    let cells = before.state.spec_grid()@;
    let mover = before.state.spec_turn_color();
    &&& after.cursor == before.cursor
    &&& after.prev_keys == before.prev_keys
    &&& after.offset == before.offset
    &&& match frame {
        Frame::Bot { rotate } => {
            &&& best_before(cells, mover, rotate, 256)
            &&& after.state.follows(&before.state, rotate)
            &&& after.scroll_at_start_of_player_turn
        },
        Frame::Stuck => {
            &&& none_before(cells, mover, 256)
            &&& after.state == before.state
            &&& after.scroll_at_start_of_player_turn == before.scroll_at_start_of_player_turn
        },
        _ => false,
    }
}

} // verus!
