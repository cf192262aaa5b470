use arrow_grid::game::selector::select_turn;
use arrow_grid::game::{self, Color, Direction, Grid, Node, Position};
use arrow_grid::mmio::keys::KeyInput;
use arrow_grid::mmio::vram::TextScreenEntry;
use arrow_grid::screen::game::{
    compute_edges, draw_board, draw_frame, draw_node, get_screen_location, palette_of, set_block,
    set_tile, set_tile_group, Block, Edges, Frame, Game, ScrollAccelerator,
};
use arrow_grid::screen::game_over::{fade_level, GameOver, PlayerResult};
use arrow_grid::screen::splash::Splash;
use arrow_grid::screen::title::Title;
use arrow_grid::screen::{Screen, Step};

fn arrow(alignment: Option<Color>, direction: Direction) -> Node {
    Node::Arrow {
        alignment,
        direction,
    }
}

fn game_on(rows: [[Node; 16]; 16], turn_color: Color) -> game::Game {
    game::Game::builder()
        .grid(Grid::new(rows))
        .turn_color(turn_color)
        .build()
}

fn keys(held: &[KeyInput]) -> KeyInput {
    let mut bits = 0x03ff;
    for key in held {
        bits &= key.0;
    }
    KeyInput(bits)
}

fn entry(tile: u16, palette: u16) -> TextScreenEntry {
    TextScreenEntry(tile | (palette << 12))
}

#[test]
fn edges_hold_sides() {
    assert_eq!(Edges::new(), Edges(0));
    assert_eq!(Edges::side(Direction::Left), Edges(0b0001));
    assert_eq!(Edges::side(Direction::Up), Edges(0b0010));
    assert_eq!(Edges::side(Direction::Right), Edges(0b0100));
    assert_eq!(Edges::side(Direction::Down), Edges(0b1000));
    let mut edges = Edges::new();
    assert!(!edges.contains(Edges::side(Direction::Up)));
    assert!(edges.contains(Edges::new()));
    edges.insert(Edges::side(Direction::Up));
    edges.insert(Edges::side(Direction::Down));
    assert_eq!(edges, Edges(0b1010));
    assert!(edges.contains(Edges::side(Direction::Up)));
    assert!(edges.contains(Edges::side(Direction::Down)));
    assert!(!edges.contains(Edges::side(Direction::Left)));
    assert!(!edges.contains(Edges::side(Direction::Right)));
    assert!(edges.contains(Edges(0b1010)));
    assert!(!edges.contains(Edges(0b1110)));
}

#[test]
fn blocks_of_a_tile() {
    assert_eq!(
        set_block(3, 4, 37, 8, 1),
        Block {
            x: 3,
            y: 4,
            frame: 8,
            entry: entry(37, 1)
        }
    );
    assert_eq!(
        set_tile(3, 4, 37, 8, 1),
        [
            Block { x: 6, y: 8, frame: 8, entry: entry(37, 1) },
            Block { x: 7, y: 8, frame: 8, entry: entry(37, 1) },
            Block { x: 6, y: 9, frame: 8, entry: entry(37, 1) },
            Block { x: 7, y: 9, frame: 8, entry: entry(37, 1) },
        ]
    );
    assert_eq!(
        set_tile_group(15, 0, 5, 24, 4),
        [
            Block { x: 30, y: 0, frame: 24, entry: entry(5, 4) },
            Block { x: 31, y: 0, frame: 24, entry: entry(6, 4) },
            Block { x: 30, y: 1, frame: 24, entry: entry(7, 4) },
            Block { x: 31, y: 1, frame: 24, entry: entry(8, 4) },
        ]
    );
    // The tile numbers stop at the last tile.
    assert_eq!(
        set_tile_group(0, 0, 1022, 0, 15),
        [
            Block { x: 0, y: 0, frame: 0, entry: entry(1022, 15) },
            Block { x: 1, y: 0, frame: 0, entry: entry(1023, 15) },
            Block { x: 0, y: 1, frame: 0, entry: entry(1023, 15) },
            Block { x: 1, y: 1, frame: 0, entry: entry(1023, 15) },
        ]
    );
}

#[test]
fn screen_location_wraps_into_the_next_maps() {
    assert_eq!(get_screen_location(0, 0, 24), (8, 8, 24));
    assert_eq!(get_screen_location(7, 7, 24), (15, 15, 24));
    assert_eq!(get_screen_location(8, 0, 24), (0, 8, 25));
    assert_eq!(get_screen_location(0, 8, 24), (8, 0, 26));
    assert_eq!(get_screen_location(8, 8, 24), (0, 0, 27));
    assert_eq!(get_screen_location(15, 15, 24), (7, 7, 27));
    assert_eq!(get_screen_location(3, 12, 0), (11, 4, 2));
}

#[test]
fn nodes_are_drawn_with_their_tiles_and_palettes() {
    assert_eq!(palette_of(None), 0);
    assert_eq!(palette_of(Some(Color::Red)), 1);
    assert_eq!(palette_of(Some(Color::Blue)), 2);
    assert_eq!(palette_of(Some(Color::Yellow)), 3);
    assert_eq!(palette_of(Some(Color::Green)), 4);
    let first = |node: Node| {
        let (blocks, palette) = draw_node(&node, 2, 3, 24);
        assert_eq!((blocks[0].x, blocks[0].y, blocks[0].frame), (4, 6, 24));
        assert_eq!((blocks[3].x, blocks[3].y, blocks[3].frame), (5, 7, 24));
        (
            blocks[0].entry.0 & 1023,
            blocks[3].entry.0 & 1023,
            blocks[0].entry.0 >> 12,
            palette,
        )
    };
    assert_eq!(first(Node::Empty), (0, 0, 0, 0));
    assert_eq!(first(Node::Wall), (1, 4, 0, 0));
    assert_eq!(first(arrow(None, Direction::Right)), (5, 8, 0, 0));
    assert_eq!(first(arrow(Some(Color::Red), Direction::Left)), (9, 12, 1, 1));
    assert_eq!(first(arrow(Some(Color::Blue), Direction::Down)), (13, 16, 2, 2));
    assert_eq!(first(arrow(Some(Color::Green), Direction::Up)), (17, 20, 4, 4));
    assert_eq!(first(Node::AllDirection { alignment: None }), (1, 4, 0, 0));
    assert_eq!(
        first(Node::AllDirection {
            alignment: Some(Color::Yellow)
        }),
        (38, 41, 3, 3)
    );
    let redirector = |alignment, direction| Node::SuperArrow {
        alignment,
        direction,
    };
    assert_eq!(first(redirector(None, Direction::Left)), (1, 4, 0, 0));
    assert_eq!(
        first(redirector(Some(Color::Red), Direction::Left)),
        (42, 45, 1, 1)
    );
    assert_eq!(
        first(redirector(Some(Color::Red), Direction::Up)),
        (46, 49, 1, 1)
    );
    assert_eq!(
        first(redirector(Some(Color::Red), Direction::Right)),
        (50, 53, 1, 1)
    );
    assert_eq!(
        first(redirector(Some(Color::Red), Direction::Down)),
        (54, 57, 1, 1)
    );
}

#[test]
fn frames_open_towards_the_edges() {
    let tiles = |edges: Edges| {
        let blocks = draw_frame(edges, 1, 2, 16, 3);
        assert_eq!((blocks[0].x, blocks[0].y), (2, 4));
        assert_eq!((blocks[1].x, blocks[1].y), (3, 4));
        assert_eq!((blocks[2].x, blocks[2].y), (2, 5));
        assert_eq!((blocks[3].x, blocks[3].y), (3, 5));
        for block in blocks {
            assert_eq!(block.frame, 16);
            assert_eq!(block.entry.0 >> 12, 3);
        }
        [
            blocks[0].entry.0 & 1023,
            blocks[1].entry.0 & 1023,
            blocks[2].entry.0 & 1023,
            blocks[3].entry.0 & 1023,
        ]
    };
    assert_eq!(tiles(Edges(0)), [21, 25, 29, 33]);
    assert_eq!(tiles(Edges::side(Direction::Left)), [22, 25, 30, 33]);
    assert_eq!(tiles(Edges::side(Direction::Up)), [23, 27, 29, 33]);
    assert_eq!(tiles(Edges::side(Direction::Right)), [21, 26, 29, 34]);
    assert_eq!(tiles(Edges::side(Direction::Down)), [21, 25, 31, 35]);
    assert_eq!(tiles(Edges(0b1111)), [24, 28, 32, 36]);
}

#[test]
fn edges_join_a_node_and_the_cell_it_points_at() {
    let mut rows = [[Node::Empty; 16]; 16];
    rows[0][0] = arrow(Some(Color::Red), Direction::Right);
    rows[0][2] = arrow(None, Direction::Up);
    rows[5][5] = Node::AllDirection {
        alignment: Some(Color::Blue),
    };
    rows[8][8] = Node::AllDirection { alignment: None };
    rows[9][9] = Node::SuperArrow {
        alignment: None,
        direction: Direction::Left,
    };
    rows[15][15] = Node::SuperArrow {
        alignment: Some(Color::Green),
        direction: Direction::Up,
    };
    rows[15][0] = Node::AllDirection {
        alignment: Some(Color::Yellow),
    };
    let edges = compute_edges(&Grid::new(rows));
    assert_eq!(edges[0][0], Edges::side(Direction::Right));
    assert_eq!(edges[0][1], Edges::side(Direction::Left));
    // An arrow pointing off the board joins nothing.
    assert_eq!(edges[0][2], Edges(0));
    assert_eq!(edges[5][5], Edges(0b1111));
    assert_eq!(edges[5][4], Edges::side(Direction::Right));
    assert_eq!(edges[5][6], Edges::side(Direction::Left));
    assert_eq!(edges[4][5], Edges::side(Direction::Down));
    assert_eq!(edges[6][5], Edges::side(Direction::Up));
    // Hidden nodes join nothing.
    assert_eq!(edges[8][8], Edges(0));
    assert_eq!(edges[9][9], Edges(0));
    assert_eq!(edges[9][8], Edges(0));
    assert_eq!(edges[15][15], Edges::side(Direction::Up));
    assert_eq!(edges[14][15], Edges::side(Direction::Down));
    assert_eq!(edges[15][0], Edges(0b0110));
    assert_eq!(edges[14][0], Edges::side(Direction::Down));
    assert_eq!(edges[15][1], Edges::side(Direction::Left));
}

#[test]
fn board_is_drawn_cell_by_cell() {
    let mut rows = [[Node::Empty; 16]; 16];
    rows[0][0] = arrow(Some(Color::Red), Direction::Right);
    rows[15][15] = Node::Wall;
    let blocks = draw_board(&Grid::new(rows));
    assert_eq!(blocks.len(), 2048);
    // The first cell: the arrow, then its frame, open to the right.
    assert_eq!(
        &blocks[0..8],
        &[
            Block { x: 16, y: 16, frame: 24, entry: entry(5, 1) },
            Block { x: 17, y: 16, frame: 24, entry: entry(6, 1) },
            Block { x: 16, y: 17, frame: 24, entry: entry(7, 1) },
            Block { x: 17, y: 17, frame: 24, entry: entry(8, 1) },
            Block { x: 16, y: 16, frame: 16, entry: entry(21, 1) },
            Block { x: 17, y: 16, frame: 16, entry: entry(26, 1) },
            Block { x: 16, y: 17, frame: 16, entry: entry(29, 1) },
            Block { x: 17, y: 17, frame: 16, entry: entry(34, 1) },
        ]
    );
    // The second cell: empty, its frame open to the left.
    assert_eq!(
        &blocks[8..16],
        &[
            Block { x: 18, y: 16, frame: 24, entry: entry(0, 0) },
            Block { x: 19, y: 16, frame: 24, entry: entry(0, 0) },
            Block { x: 18, y: 17, frame: 24, entry: entry(0, 0) },
            Block { x: 19, y: 17, frame: 24, entry: entry(0, 0) },
            Block { x: 18, y: 16, frame: 16, entry: entry(22, 0) },
            Block { x: 19, y: 16, frame: 16, entry: entry(25, 0) },
            Block { x: 18, y: 17, frame: 16, entry: entry(30, 0) },
            Block { x: 19, y: 17, frame: 16, entry: entry(33, 0) },
        ]
    );
    // The last cell: the wall, in the fourth map.
    assert_eq!(
        &blocks[2040..2048],
        &[
            Block { x: 14, y: 14, frame: 27, entry: entry(1, 0) },
            Block { x: 15, y: 14, frame: 27, entry: entry(2, 0) },
            Block { x: 14, y: 15, frame: 27, entry: entry(3, 0) },
            Block { x: 15, y: 15, frame: 27, entry: entry(4, 0) },
            Block { x: 14, y: 14, frame: 19, entry: entry(21, 0) },
            Block { x: 15, y: 14, frame: 19, entry: entry(25, 0) },
            Block { x: 14, y: 15, frame: 19, entry: entry(29, 0) },
            Block { x: 15, y: 15, frame: 19, entry: entry(33, 0) },
        ]
    );
    // Cell (8, 0) is the first of the second map.
    assert_eq!(
        blocks[8 * 8],
        Block { x: 0, y: 16, frame: 25, entry: entry(0, 0) }
    );
    let screen = Game::new(
        Position { x: 0, y: 0 },
        game_on(rows, Color::Red),
        Color::Red,
    );
    assert_eq!(screen.draw(), blocks);
}

#[test]
fn scrolling_goes_towards_the_position() {
    assert_eq!(
        ScrollAccelerator::position_to_pixel_location(Position { x: 0, y: 0 }),
        (76, 86)
    );
    assert_eq!(
        ScrollAccelerator::position_to_pixel_location(Position { x: 15, y: 15 }),
        (196, 266)
    );
    assert_eq!(
        ScrollAccelerator::position_to_pixel_location(Position { x: 255, y: 255 }),
        (2116, 3146)
    );
    let mut scroll = ScrollAccelerator::new(Position { x: 0, y: 0 });
    assert_eq!(scroll.offset(), (76, 86));
    let target = Position { x: 1, y: 0 };
    assert!(!scroll.scroll_to_position(target, 3));
    assert_eq!(scroll.offset(), (79, 86));
    assert!(!scroll.scroll_to_position(target, 3));
    assert_eq!(scroll.offset(), (82, 86));
    // Less than the velocity away: one step.
    assert!(!scroll.scroll_to_position(target, 3));
    assert_eq!(scroll.offset(), (83, 86));
    assert!(scroll.scroll_to_position(target, 3));
    assert_eq!(scroll.offset(), (84, 86));
    assert!(scroll.scroll_to_position(target, 3));
    assert_eq!(scroll.offset(), (84, 86));
    // Back, and down at the same time.
    let target = Position { x: 0, y: 1 };
    assert!(!scroll.scroll_to_position(target, 2));
    assert_eq!(scroll.offset(), (82, 88));
    assert!(!scroll.scroll_to_position(target, 8));
    assert_eq!(scroll.offset(), (81, 96));
    assert!(!scroll.scroll_to_position(target, 0));
    assert_eq!(scroll.offset(), (81, 96));
    for _ in 0..4 {
        assert!(!scroll.scroll_to_position(target, 1));
    }
    assert!(scroll.scroll_to_position(target, 1));
    assert_eq!(scroll.offset(), (76, 98));
}

#[test]
fn sprite_is_placed_relative_to_the_scroll() {
    let scroll = ScrollAccelerator::new(Position { x: 0, y: 0 });
    assert_eq!(
        scroll.relative_sprite_location(Position { x: 0, y: 0 }),
        Some((52, 42))
    );
    assert_eq!(
        scroll.relative_sprite_location(Position { x: 10, y: 5 }),
        Some((212, 122))
    );
    // Too far down.
    assert_eq!(
        scroll.relative_sprite_location(Position { x: 15, y: 15 }),
        None
    );
    let scroll = ScrollAccelerator::new(Position { x: 15, y: 15 });
    assert_eq!(scroll.offset(), (196, 266));
    assert_eq!(
        scroll.relative_sprite_location(Position { x: 15, y: 15 }),
        Some((172, 102))
    );
    assert_eq!(
        scroll.relative_sprite_location(Position { x: 5, y: 12 }),
        Some((12, 54))
    );
    // A little off the left edge: the distance counts down from 65536.
    assert_eq!(
        scroll.relative_sprite_location(Position { x: 4, y: 12 }),
        Some((65532, 54))
    );
    // Too far left, and too far up.
    assert_eq!(scroll.relative_sprite_location(Position { x: 0, y: 12 }), None);
    assert_eq!(scroll.relative_sprite_location(Position { x: 5, y: 0 }), None);
}

#[test]
fn selector_takes_the_first_move_of_the_greatest_weight() {
    let mut rows = [[Node::Empty; 16]; 16];
    // Rotated, this arrow points right, at a chain of three.
    rows[2][2] = arrow(Some(Color::Blue), Direction::Up);
    rows[2][3] = arrow(None, Direction::Right);
    rows[2][4] = arrow(None, Direction::Right);
    rows[2][5] = arrow(None, Direction::Right);
    // Rotated, this arrow points up, at a chain of two.
    rows[7][7] = arrow(Some(Color::Blue), Direction::Left);
    rows[6][7] = arrow(None, Direction::Up);
    rows[5][7] = arrow(None, Direction::Up);
    let game = game_on(rows, Color::Blue);
    assert_eq!(
        select_turn(&game).map(|turn| turn.rotate),
        Some(Position { x: 2, y: 2 })
    );
    // A longer chain further on in the scan wins.
    rows[4][7] = arrow(None, Direction::Up);
    rows[3][7] = arrow(None, Direction::Up);
    let game = game_on(rows, Color::Blue);
    assert_eq!(
        select_turn(&game).map(|turn| turn.rotate),
        Some(Position { x: 7, y: 7 })
    );
    // On a tie the first one scanned stays: columns go first.
    rows[3][7] = Node::Empty;
    rows[4][7] = Node::Empty;
    rows[2][5] = Node::Empty;
    let game = game_on(rows, Color::Blue);
    assert_eq!(
        select_turn(&game).map(|turn| turn.rotate),
        Some(Position { x: 2, y: 2 })
    );
    rows[9][1] = arrow(Some(Color::Blue), Direction::Down);
    rows[9][0] = arrow(None, Direction::Up);
    rows[8][0] = arrow(None, Direction::Up);
    let game = game_on(rows, Color::Blue);
    assert_eq!(
        select_turn(&game).map(|turn| turn.rotate),
        Some(Position { x: 1, y: 9 })
    );
}

#[test]
fn selector_gives_no_weight_to_own_cells_and_edges() {
    let mut rows = [[Node::Empty; 16]; 16];
    // Rotated, this arrow points at a long chain that the mover owns.
    rows[0][0] = arrow(Some(Color::Green), Direction::Up);
    rows[0][1] = arrow(Some(Color::Green), Direction::Right);
    rows[0][2] = arrow(None, Direction::Right);
    rows[0][3] = arrow(None, Direction::Right);
    // Rotated, this one points at a single free arrow.
    rows[9][9] = arrow(Some(Color::Green), Direction::Right);
    rows[10][9] = arrow(None, Direction::Left);
    let game = game_on(rows, Color::Green);
    assert_eq!(
        select_turn(&game).map(|turn| turn.rotate),
        Some(Position { x: 9, y: 9 })
    );
    // Only moves worth nothing: the first candidate scanned.
    let mut rows = [[Node::Empty; 16]; 16];
    rows[5][3] = arrow(Some(Color::Green), Direction::Up);
    rows[0][9] = arrow(Some(Color::Green), Direction::Left);
    rows[7][3] = Node::AllDirection {
        alignment: Some(Color::Green),
    };
    let game = game_on(rows, Color::Green);
    assert_eq!(
        select_turn(&game).map(|turn| turn.rotate),
        Some(Position { x: 3, y: 5 })
    );
}

#[test]
fn selector_finds_nothing_without_a_node_to_rotate() {
    let mut rows = [[Node::Empty; 16]; 16];
    rows[1][1] = arrow(Some(Color::Red), Direction::Up);
    rows[2][2] = Node::AllDirection {
        alignment: Some(Color::Blue),
    };
    let game = game_on(rows, Color::Blue);
    assert!(select_turn(&game).is_none());
    let game = game_on(rows, Color::Yellow);
    assert!(select_turn(&game).is_none());
}

/// A board on which red owns the top left corner and blue the bottom right.
fn two_player_rows() -> [[Node; 16]; 16] {
    let mut rows = [[arrow(None, Direction::Up); 16]; 16];
    rows[0][0] = arrow(Some(Color::Red), Direction::Up);
    rows[15][15] = arrow(Some(Color::Blue), Direction::Left);
    rows
}

#[test]
fn game_screen_moves_the_cursor_on_new_keys() {
    let mut screen = Game::new(
        Position { x: 3, y: 3 },
        game_on(two_player_rows(), Color::Red),
        Color::Red,
    );
    assert_eq!(screen.scroll_offset(), (100, 122));
    assert_eq!(screen.cursor_sprite(), Some((76, 54)));
    let right = keys(&[KeyInput::right()]);
    assert_eq!(screen.run(right), Frame::Player { redraw: false });
    assert_eq!(screen.cursor(), Position { x: 4, y: 3 });
    assert_eq!(screen.scroll_offset(), (101, 122));
    // Held on, the key moves nothing.
    assert_eq!(screen.run(right), Frame::Player { redraw: false });
    assert_eq!(screen.cursor(), Position { x: 4, y: 3 });
    assert_eq!(screen.scroll_offset(), (102, 122));
    // Right and up together, after a release.
    assert_eq!(screen.run(KeyInput::none()), Frame::Player { redraw: false });
    let both = keys(&[KeyInput::right(), KeyInput::up()]);
    assert_eq!(screen.run(both), Frame::Player { redraw: false });
    assert_eq!(screen.cursor(), Position { x: 5, y: 2 });
    // Left and right together cancel out, except at the edge.
    assert_eq!(screen.run(KeyInput::none()), Frame::Player { redraw: false });
    let both = keys(&[KeyInput::right(), KeyInput::left(), KeyInput::down()]);
    assert_eq!(screen.run(both), Frame::Player { redraw: false });
    assert_eq!(screen.cursor(), Position { x: 5, y: 3 });

    let mut screen = Game::new(
        Position { x: 15, y: 0 },
        game_on(two_player_rows(), Color::Red),
        Color::Red,
    );
    assert_eq!(screen.run(both), Frame::Player { redraw: false });
    assert_eq!(screen.cursor(), Position { x: 14, y: 1 });
    assert_eq!(screen.run(KeyInput::none()), Frame::Player { redraw: false });
    let all = KeyInput(0);
    assert_eq!(screen.run(all), Frame::Player { redraw: false });
    // Right, up, left, down, and the A button on a cell that is not owned.
    assert_eq!(screen.cursor(), Position { x: 14, y: 1 });
    assert_eq!(screen.state().turn_color(), Color::Red);
}

#[test]
fn game_screen_rotates_on_the_a_button() {
    let mut screen = Game::new(
        Position { x: 0, y: 0 },
        game_on(two_player_rows(), Color::Red),
        Color::Red,
    );
    assert_eq!(screen.run(KeyInput::a()), Frame::Player { redraw: true });
    assert_eq!(
        screen.state().grid().get(Position { x: 0, y: 0 }),
        Some(&arrow(Some(Color::Red), Direction::Right))
    );
    assert_eq!(screen.state().turn_color(), Color::Blue);
    // Blue moves by itself: its only arrow, whatever the keys.
    assert_eq!(
        screen.run(KeyInput::a()),
        Frame::Bot {
            rotate: Position { x: 15, y: 15 }
        }
    );
    assert_eq!(screen.state().turn_color(), Color::Red);
    assert_eq!(
        screen.state().grid().get(Position { x: 15, y: 15 }),
        Some(&arrow(Some(Color::Blue), Direction::Up))
    );
    // Blue has taken the right column.
    for y in 0..16 {
        assert_eq!(
            screen.state().grid().get(Position { x: 15, y }),
            Some(&arrow(Some(Color::Blue), Direction::Up))
        );
    }
    // The display scrolls to the move, two pixels a frame.
    assert_eq!(screen.scroll_offset(), (76, 86));
    let mut frames = 1;
    while !screen.scroll_to_move(Position { x: 15, y: 15 }) {
        frames += 1;
    }
    assert_eq!(frames, 90);
    assert_eq!(screen.scroll_offset(), (196, 266));
    assert_eq!(screen.cursor(), Position { x: 0, y: 0 });
    assert_eq!(screen.cursor_sprite(), None);
    // Back on the player's turn the display hurries to the cursor.
    assert_eq!(screen.run(KeyInput::a()), Frame::Player { redraw: false });
    assert_eq!(screen.scroll_offset(), (194, 264));
    for _ in 0..58 {
        assert_eq!(screen.run(KeyInput::a()), Frame::Player { redraw: false });
    }
    assert_eq!(screen.scroll_offset(), (78, 148));
    assert_eq!(screen.run(KeyInput::a()), Frame::Player { redraw: false });
    assert_eq!(screen.scroll_offset(), (76, 146));
    for _ in 0..30 {
        screen.run(KeyInput::a());
    }
    assert_eq!(screen.scroll_offset(), (76, 86));
    // Arrived: from now on, one pixel a frame.
    assert_eq!(
        screen.run(keys(&[KeyInput::a(), KeyInput::down()])),
        Frame::Player { redraw: false }
    );
    assert_eq!(screen.cursor(), Position { x: 0, y: 1 });
    assert_eq!(screen.scroll_offset(), (76, 87));
}

#[test]
fn game_screen_ends_when_the_player_wins_or_loses() {
    let mut rows = [[Node::Empty; 16]; 16];
    rows[0][0] = arrow(Some(Color::Red), Direction::Up);
    rows[0][1] = arrow(Some(Color::Blue), Direction::Down);
    let mut screen = Game::new(Position { x: 0, y: 0 }, game_on(rows, Color::Red), Color::Red);
    assert_eq!(screen.run(KeyInput::a()), Frame::Won);
    assert!(screen.state().is_eliminated(Color::Blue));
    // The offset has not moved, and the key is still new.
    assert_eq!(screen.scroll_offset(), (76, 86));

    let mut screen = Game::new(
        Position { x: 0, y: 0 },
        game_on(rows, Color::Red),
        Color::Yellow,
    );
    assert_eq!(screen.run(KeyInput::a()), Frame::Lost);
    assert_eq!(screen.state().turn_color(), Color::Red);
    assert_eq!(
        screen.state().grid().get(Position { x: 0, y: 0 }),
        Some(&arrow(Some(Color::Red), Direction::Up))
    );

    // A mover with nothing to rotate is stuck.
    let mut rows = [[Node::Empty; 16]; 16];
    rows[0][0] = arrow(Some(Color::Red), Direction::Up);
    rows[4][4] = Node::AllDirection {
        alignment: Some(Color::Green),
    };
    let mut screen = Game::new(
        Position { x: 0, y: 0 },
        game_on(rows, Color::Green),
        Color::Red,
    );
    assert_eq!(screen.run(KeyInput::none()), Frame::Stuck);
    assert_eq!(screen.state().turn_color(), Color::Green);
}

#[test]
fn splash_gives_way_after_its_time_or_on_the_a_button() {
    let mut splash = Splash::new();
    for _ in 0..181 {
        assert!(!splash.run(KeyInput::none()));
    }
    assert!(splash.run(KeyInput::none()));
    assert!(splash.run(KeyInput::b()));
    let mut splash = Splash::new();
    assert!(!splash.run(KeyInput::b()));
    assert!(splash.run(KeyInput::a()));
    assert!(splash.run(keys(&[KeyInput::a(), KeyInput::start()])));
    assert!(!splash.run(KeyInput::none()));
}

#[test]
fn title_starts_the_game_of_the_frame_count() {
    let mut title = Title::new();
    for _ in 0..5 {
        assert!(title.run(KeyInput::start()).is_none());
    }
    let screen = title.run(KeyInput::a()).unwrap();
    let expected = Grid::generate(5);
    for y in 0..16 {
        for x in 0..16 {
            let position = Position { x, y };
            assert_eq!(
                screen.state().grid().get(position),
                expected.get(position)
            );
        }
    }
    assert_eq!(screen.state().turn_color(), Color::Red);
    assert_eq!(screen.cursor(), Position { x: 0, y: 0 });
    assert_eq!(screen.scroll_offset(), (76, 86));
    for color in [Color::Red, Color::Blue, Color::Yellow, Color::Green] {
        assert!(!screen.state().is_eliminated(color));
    }
    // Starting a game does not count.
    let again = title.run(KeyInput::a()).unwrap();
    assert_eq!(
        again.state().grid().get(Position { x: 1, y: 0 }),
        expected.get(Position { x: 1, y: 0 })
    );
    let first = Title::new().run(KeyInput::a()).unwrap();
    assert_eq!(
        first.state().grid().get(Position { x: 1, y: 0 }),
        Grid::generate(0).get(Position { x: 1, y: 0 })
    );
}

#[test]
fn game_over_waits_for_the_a_button() {
    let mut over = GameOver::new(PlayerResult::Win);
    assert_eq!(over.result(), PlayerResult::Win);
    assert!(!over.run(KeyInput::none()));
    assert!(!over.run(KeyInput::start()));
    assert!(over.run(KeyInput::a()));
    assert_eq!(over.result(), PlayerResult::Win);
    assert_eq!(GameOver::new(PlayerResult::Lose).result(), PlayerResult::Lose);
    assert_eq!(GameOver::banner_offset(0), 298);
    assert_eq!(GameOver::banner_offset(1), 330);
    assert_eq!(fade_level(0), 0);
    assert_eq!(fade_level(1), 0);
    assert_eq!(fade_level(29), 14);
    assert_eq!(fade_level(30), 15);
}

#[test]
fn screens_follow_one_another() {
    let mut screen = Screen::default();
    assert!(matches!(screen, Screen::Splash(_)));
    assert!(matches!(screen.run(KeyInput::none()), Step::Wait));
    assert!(matches!(screen, Screen::Splash(_)));
    assert!(matches!(screen.run(KeyInput::a()), Step::Entered));
    assert!(matches!(screen, Screen::Title(_)));
    assert!(matches!(screen.run(KeyInput::none()), Step::Wait));
    assert!(matches!(screen.run(KeyInput::none()), Step::Wait));
    assert!(matches!(screen.run(KeyInput::a()), Step::Entered));
    match &screen {
        Screen::Game(game) => {
            assert_eq!(
                game.state().grid().get(Position { x: 7, y: 7 }),
                Grid::generate(2).get(Position { x: 7, y: 7 })
            );
        }
        _ => panic!("the game has not started"),
    }
    assert!(matches!(
        screen.run(KeyInput::none()),
        Step::Shown(Frame::Player { redraw: false })
    ));
    // The corner arrow is the player's.
    assert!(matches!(
        screen.run(KeyInput::a()),
        Step::Shown(Frame::Player { redraw: true })
    ));
    assert!(matches!(
        screen.run(KeyInput::none()),
        Step::Shown(Frame::Bot { .. })
    ));

    let mut rows = [[Node::Empty; 16]; 16];
    rows[0][0] = arrow(Some(Color::Red), Direction::Up);
    rows[0][1] = arrow(Some(Color::Blue), Direction::Down);
    let mut screen = Screen::Game(Game::new(
        Position { x: 0, y: 0 },
        game_on(rows, Color::Red),
        Color::Red,
    ));
    match screen.run(KeyInput::a()) {
        Step::EnteredAfter(blocks) => {
            assert_eq!(blocks.len(), 2048);
            // The captured arrow is drawn in red.
            assert_eq!(blocks[8].entry, entry(13, 1));
        }
        _ => panic!("the game is not won"),
    }
    match &screen {
        Screen::GameOver(over) => assert_eq!(over.result(), PlayerResult::Win),
        _ => panic!("the game is not over"),
    }
    assert!(matches!(screen.run(KeyInput::b()), Step::Wait));
    assert!(matches!(screen.run(KeyInput::a()), Step::Entered));
    assert!(matches!(screen, Screen::Title(_)));

    let mut screen = Screen::Game(Game::new(
        Position { x: 0, y: 0 },
        game_on(rows, Color::Red),
        Color::Green,
    ));
    assert!(matches!(screen.run(KeyInput::none()), Step::Entered));
    match &screen {
        Screen::GameOver(over) => assert_eq!(over.result(), PlayerResult::Lose),
        _ => panic!("the game is not over"),
    }
}
