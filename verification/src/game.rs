//! The actual gameplay.

use vstd::prelude::*;

pub mod beam;
pub mod counts;
pub mod direction;
pub mod fill;
pub mod generate;
pub mod grid;
pub mod node;
pub mod position;
pub mod reach;
pub mod selector;
pub mod turn;

pub use counts::ColorCounts;
pub use direction::Direction;
pub use grid::Grid;
pub use node::Node;
pub use position::Position;
pub use turn::{Turn, TurnError};

use beam::{beamed, beamed_up_to, clear_ahead, distance_ahead, index_ahead, lemma_step_ahead};
use counts::{
    count_color, lemma_count_color_bound, lemma_count_color_positive,
    lemma_count_color_same_color, lemma_count_color_update,
};
use fill::{
    filled_region, flows_along, flows_back, lemma_count_clear_set, lemma_index_of_position_at,
    lemma_position_at_index, lemma_spreads_from_nothing, lemma_spreads_nowhere,
    lemma_spreads_onward, lemma_spreads_through, marked, marks, painted, position_at, settled,
    spreads, unmarked, within,
};

verus! {

/// A player identity, and the mark a node carries once a player owns it.
#[derive(Clone, Copy, Debug, PartialEq, Eq, Structural)]
pub enum Color {
    // Player colors.
    Red,
    Blue,
    Yellow,
    Green,
}

impl Color {
    /// The color that moves after this one when nobody is eliminated.
    pub open spec fn successor(self) -> Color {
        match self {
            Color::Red => Color::Blue,
            Color::Blue => Color::Yellow,
            Color::Yellow => Color::Green,
            Color::Green => Color::Red,
        }
    }
}

/// The color that moves after `current`: the first color after it in turn
/// order that still owns a cell, or `current` itself if no other color does.
pub open spec fn next_turn(counts: ColorCounts, current: Color) -> Color {
    let first = current.successor();
    let second = first.successor();
    let third = second.successor();
    if !counts.spec_is_eliminated(first) {
        first
    } else if !counts.spec_is_eliminated(second) {
        second
    } else if !counts.spec_is_eliminated(third) {
        third
    } else {
        current
    }
}

/// `cells` with the node at `position` turned a quarter turn clockwise.
pub open spec fn rotated_at(cells: Seq<Node>, position: Position) -> Seq<Node> {
    cells.update(position.index(), cells[position.index()].rotated())
}

/// `cells` after the node at `position` has sent its beam, if it is a
/// redirector; `cells` itself if it is not.
pub open spec fn redirected(cells: Seq<Node>, position: Position) -> Seq<Node> {
    match cells[position.index()] {
        Node::SuperArrow { direction, .. } => beamed(cells, position, direction),
        _ => cells,
    }
}

/// The board after the player of `color` has rotated their node at
/// `position`: the node is turned, sends its beam if it is a redirector, and
/// the fill from it gives every cell it marks to the player.
pub open spec fn turn_cells(cells: Seq<Node>, position: Position, color: Color) -> Seq<Node> {
    let aimed = redirected(rotated_at(cells, position), position);
    painted(aimed, filled_region(aimed, position), color)
}

/// The game state.
#[derive(Debug)]
pub struct Game {
    /// Indicates whose turn it is.
    turn_color: Color,
    // These counts must invariantly match with the number of colors in `self.grid`.
    color_counts: ColorCounts,
    grid: Grid,
}

impl Game {
    /// The board.
    pub closed spec fn spec_grid(&self) -> &Grid {
        &self.grid
    }

    /// The color whose move is next.
    pub closed spec fn spec_turn_color(&self) -> Color {
        self.turn_color
    }

    /// The number of cells each color owns.
    pub closed spec fn counts(&self) -> ColorCounts {
        self.color_counts
    }

    /// The invariant of the game: the counts are those of the board.
    pub open spec fn wf(&self) -> bool {
        self.counts().matches_cells(self.spec_grid()@)
    }

    /// Whether the mover may rotate the node at `position`: it is on the
    /// board and the mover owns it.
    pub open spec fn may_rotate(&self, position: Position) -> bool {
        position.in_bounds() && self.spec_grid().at(position).spec_is_color(self.spec_turn_color())
    }

    /// Whether this is the game that comes of `before` when the mover
    /// rotates their node at `rotate`: the board is the one the turn leaves,
    /// the counts are those of that board, and the turn has passed on.
    pub open spec fn follows(&self, before: &Game, rotate: Position) -> bool {
        &&& self.wf()
        &&& self.spec_grid()@ == turn_cells(
            before.spec_grid()@,
            rotate,
            before.spec_turn_color(),
        )
        &&& self.spec_turn_color() == next_turn(self.counts(), before.spec_turn_color())
    }

    /// A builder with red to move on a board of empty cells.
    pub fn builder() -> (builder: Builder)
        ensures
            builder.spec_turn_color() == Color::Red,
            builder.spec_grid()@ == Seq::new(256, |i: int| Node::Empty),
    {
        let grid = Grid::new([[Node::Empty; 16]; 16]);
        assert(grid@ =~= Seq::new(256, |i: int| Node::Empty));
        Builder { turn_color: Color::Red, grid }
    }

    /// Whether the player of the given color owns no cell.
    pub fn is_eliminated(&self, color: Color) -> (eliminated: bool)
        ensures
            eliminated == self.counts().spec_is_eliminated(color),
    {
        self.color_counts.is_eliminated(color)
    }

    /// Whether a fill of the board `origin` that has marked `visited` has
    /// brought the game to its present state.
    spec fn filling(&self, origin: Seq<Node>, visited: [[bool; 16]; 16]) -> bool {
        &&& origin.len() == 256
        &&& self.grid@ == painted(origin, marked(visited), self.turn_color)
        &&& self.color_counts.matches_cells(self.grid@)
    }

    /// Fill in the current color beginning at the given position.
    ///
    /// A call that finds the position off the board or marked already does
    /// nothing. Any other call visits the position: it marks it, gives its
    /// node to the mover if it can carry a color, and goes on along the
    /// flow. The number of visits made, which is returned, is the number of
    /// cells newly marked: no cell is visited twice, whatever cycles the
    /// arrows form.
    fn fill(
        &mut self,
        position: Position,
        visited: &mut [[bool; 16]; 16],
        Ghost(origin): Ghost<Seq<Node>>,
    ) -> (visits: Ghost<nat>)
        requires
            old(self).filling(origin, *old(visited)),
        ensures
            visits@ + unmarked(*final(visited)) == unmarked(*old(visited)),
            final(self).turn_color == old(self).turn_color,
            final(self).filling(origin, *final(visited)),
            spreads(origin, position, marked(*old(visited)), marked(*final(visited))),
            position.in_bounds() ==> marked(*final(visited)).contains(position),
            marked(*old(visited)).contains(position) ==> marked(*final(visited)) == marked(
                *old(visited),
            ),
        decreases unmarked(*old(visited)), 0nat,
    {
        let ghost before = marked(*visited);
        proof {
            lemma_spreads_nowhere(origin, position, before);
        }
        // Ensure this is a valid position.
        let mut node: Node = match self.grid.get(position) {
            Some(node) => *node,
            None => return Ghost(0),
        };
        let x = position.x as usize;
        let y = position.y as usize;
        if visited[y][x] {
            // We have already visited this position.
            return Ghost(0);
        }
        proof {
            lemma_position_at_index(position);
            lemma_count_clear_set(marks(*visited), position.index());
        }
        let ghost mut visits: nat = 1;
        let ghost cells = self.grid@;
        visited[y][x] = true;
        let ghost started = marked(*visited);
        proof {
            assert(marks(*visited) =~= marks(*old(visited)).update(position.index(), true));
            assert(started =~= before.insert(position));
            assert(cells[position.index()] == origin[position.index()]);
            assert forall|index: int| 0 <= index < 256 && index != position.index() implies (
            started.contains(position_at(index)) <==> before.contains(position_at(index))) by {
                lemma_index_of_position_at(index);
            }
        }
        let old_color = node.color();
        if node.set_color(self.turn_color) {
            proof {
                lemma_count_color_bound(cells, self.turn_color);
                lemma_count_color_update(cells, position.index(), node, Color::Red);
                lemma_count_color_update(cells, position.index(), node, Color::Blue);
                lemma_count_color_update(cells, position.index(), node, Color::Yellow);
                lemma_count_color_update(cells, position.index(), node, Color::Green);
                if let Some(loser) = old_color {
                    lemma_count_color_positive(cells, position.index(), loser);
                }
            }
            self.grid.set(x, y, node);
            self.color_counts.change(self.turn_color, old_color);
            proof {
                assert(self.grid@ =~= painted(origin, started, self.turn_color));
                assert forall|color: Color| #[trigger]
                    self.color_counts.count(color) == count_color(self.grid@, color) by {
                    assert(old(self).color_counts.count(color) == count_color(cells, color));
                }
            }
        } else if !node.is_color(self.turn_color) {
            // This means it's a wall.
            proof {
                assert(self.grid@ =~= painted(origin, started, self.turn_color));
                assert(forall|direction: Direction| !flows_along(origin, position, direction));
                assert(settled(origin, before, started));
            }
            return Ghost(1);
        } else {
            proof {
                assert(self.grid@ =~= painted(origin, started, self.turn_color));
            }
        }
        proof {
            lemma_spreads_nowhere(origin, position, started);
        }

        // Deal with the node this node points to.
        if !node.is_hidden() {
            if let Some(direction) = node.direction() {
                let onward = self.fill_onward(position, direction, visited, Ghost(origin));
                proof {
                    visits = visits + onward@;
                }
            } else if node.all_directions() {
                let leftward = self.fill_onward(position, Direction::Left, visited, Ghost(origin));
                let ghost left = marked(*visited);
                let upward = self.fill_onward(position, Direction::Up, visited, Ghost(origin));
                let ghost up = marked(*visited);
                let rightward = self.fill_onward(
                    position,
                    Direction::Right,
                    visited,
                    Ghost(origin),
                );
                let ghost right = marked(*visited);
                let downward = self.fill_onward(position, Direction::Down, visited, Ghost(origin));
                proof {
                    visits = visits + leftward@ + upward@ + rightward@ + downward@;
                    lemma_spreads_onward(origin, position, started, left, up);
                    lemma_spreads_onward(origin, position, started, up, right);
                    lemma_spreads_onward(origin, position, started, right, marked(*visited));
                }
            }
        }
        let ghost outward = marked(*visited);

        // Deal with the nodes pointing to this node.
        let from_left = self.fill_back(position, Direction::Left, visited, Ghost(origin));
        let ghost left = marked(*visited);
        let from_above = self.fill_back(position, Direction::Up, visited, Ghost(origin));
        let ghost up = marked(*visited);
        let from_right = self.fill_back(position, Direction::Right, visited, Ghost(origin));
        let ghost right = marked(*visited);
        let from_below = self.fill_back(position, Direction::Down, visited, Ghost(origin));
        let ghost after = marked(*visited);
        proof {
            visits = visits + from_left@ + from_above@ + from_right@ + from_below@;
            lemma_spreads_onward(origin, position, started, outward, left);
            lemma_spreads_onward(origin, position, started, left, up);
            lemma_spreads_onward(origin, position, started, up, right);
            lemma_spreads_onward(origin, position, started, right, after);
            assert forall|from: Position, direction: Direction|
                after.contains(from) && !before.contains(from) && #[trigger] flows_along(
                    origin,
                    from,
                    direction,
                ) implies after.contains(from.spec_step(direction).unwrap()) by {
                if from == position {
                    match direction {
                        Direction::Left => {},
                        Direction::Up => {},
                        Direction::Right => {},
                        Direction::Down => {},
                    }
                }
            }
            assert forall|region: Set<Position>|
                region.contains(position) && fill::closed(origin, region) implies #[trigger] within(
                region,
                before,
                after,
            ) by {
                assert(within(region, started, after));
            }
        }
        Ghost(visits)
    }

    /// Carries the fill from the visited cell at `position`, out of which
    /// the flow goes in `direction`, on to the neighbour in that direction.
    fn fill_onward(
        &mut self,
        position: Position,
        direction: Direction,
        visited: &mut [[bool; 16]; 16],
        Ghost(origin): Ghost<Seq<Node>>,
    ) -> (visits: Ghost<nat>)
        requires
            old(self).filling(origin, *old(visited)),
            position.spec_step(direction) is Some ==> flows_along(origin, position, direction),
        ensures
            visits@ + unmarked(*final(visited)) == unmarked(*old(visited)),
            final(self).turn_color == old(self).turn_color,
            final(self).filling(origin, *final(visited)),
            spreads(origin, position, marked(*old(visited)), marked(*final(visited))),
            position.spec_step(direction) matches Some(to) ==> marked(*final(visited)).contains(to),
        decreases unmarked(*old(visited)), 1nat,
    {
        proof {
            lemma_spreads_nowhere(origin, position, marked(*visited));
        }
        if let Some(new_position) = position.step(direction) {
            let visits = self.fill(new_position, visited, Ghost(origin));
            proof {
                position.lemma_step_in_bounds(direction);
                lemma_spreads_through(
                    origin,
                    position,
                    direction,
                    marked(*old(visited)),
                    marked(*visited),
                );
            }
            visits
        } else {
            Ghost(0)
        }
    }

    /// Carries the fill from the visited cell at `position` on to the
    /// neighbour in `direction`, if that neighbour draws the flow in.
    fn fill_back(
        &mut self,
        position: Position,
        direction: Direction,
        visited: &mut [[bool; 16]; 16],
        Ghost(origin): Ghost<Seq<Node>>,
    ) -> (visits: Ghost<nat>)
        requires
            old(self).filling(origin, *old(visited)),
            position.in_bounds(),
            origin[position.index()].colorable(),
        ensures
            visits@ + unmarked(*final(visited)) == unmarked(*old(visited)),
            final(self).turn_color == old(self).turn_color,
            final(self).filling(origin, *final(visited)),
            spreads(origin, position, marked(*old(visited)), marked(*final(visited))),
            flows_back(origin, position, direction) ==> marked(*final(visited)).contains(
                position.spec_step(direction).unwrap(),
            ),
        decreases unmarked(*old(visited)), 1nat,
    {
        proof {
            lemma_spreads_nowhere(origin, position, marked(*visited));
        }
        if let Some(new_position) = position.step(direction) {
            proof {
                position.lemma_step_in_bounds(direction);
                lemma_position_at_index(new_position);
            }
            if let Some(new_node) = self.grid.get(new_position) {
                if !new_node.is_hidden() {
                    if new_node.direction() == Some(direction.opposite())
                        || new_node.all_directions() {
                        let visits = self.fill(new_position, visited, Ghost(origin));
                        proof {
                            lemma_spreads_through(
                                origin,
                                position,
                                direction,
                                marked(*old(visited)),
                                marked(*visited),
                            );
                        }
                        return visits;
                    }
                }
            }
        }
        Ghost(0)
    }

    /// Make it the next player's turn.
    ///
    /// Returns false if the turn color was not changed.
    fn increment_turn(&mut self) -> (changed: bool)
        ensures
            final(self).turn_color == next_turn(old(self).color_counts, old(self).turn_color),
            final(self).color_counts == old(self).color_counts,
            final(self).grid == old(self).grid,
            changed == (final(self).turn_color != old(self).turn_color),
    {
        self.turn_color = match self.turn_color {
            Color::Red => {
                if !self.color_counts.is_eliminated(Color::Blue) {
                    Color::Blue
                } else if !self.color_counts.is_eliminated(Color::Yellow) {
                    Color::Yellow
                } else if !self.color_counts.is_eliminated(Color::Green) {
                    Color::Green
                } else {
                    return false;
                }
            },
            Color::Blue => {
                if !self.color_counts.is_eliminated(Color::Yellow) {
                    Color::Yellow
                } else if !self.color_counts.is_eliminated(Color::Green) {
                    Color::Green
                } else if !self.color_counts.is_eliminated(Color::Red) {
                    Color::Red
                } else {
                    return false;
                }
            },
            Color::Yellow => {
                if !self.color_counts.is_eliminated(Color::Green) {
                    Color::Green
                } else if !self.color_counts.is_eliminated(Color::Red) {
                    Color::Red
                } else if !self.color_counts.is_eliminated(Color::Blue) {
                    Color::Blue
                } else {
                    return false;
                }
            },
            Color::Green => {
                if !self.color_counts.is_eliminated(Color::Red) {
                    Color::Red
                } else if !self.color_counts.is_eliminated(Color::Blue) {
                    Color::Blue
                } else if !self.color_counts.is_eliminated(Color::Yellow) {
                    Color::Yellow
                } else {
                    return false;
                }
            },
        };
        true
    }

    /// Sends the beam of the redirector at `from`: walking on in `direction`,
    /// every node met is made to point in `direction`, until a wall or the
    /// edge of the board is met.
    fn project_beam(&mut self, from: Position, direction: Direction)
        requires
            from.in_bounds(),
            old(self).color_counts.matches_cells(old(self).grid@),
        ensures
            final(self).grid@ == beamed(old(self).grid@, from, direction),
            final(self).color_counts.matches_cells(final(self).grid@),
            final(self).color_counts == old(self).color_counts,
            final(self).turn_color == old(self).turn_color,
    {
        let ghost origin = self.grid@;
        let ghost mut reach: int = 0;
        let mut position = from;
        proof {
            self.grid.lemma_view_is_flat();
            assert(self.grid@ =~= beamed_up_to(origin, from, direction, 0));
        }
        loop
            invariant_except_break
                0 <= reach <= 15,
                distance_ahead(from, direction, position) == reach,
                position.index() == index_ahead(from, direction, reach),
                clear_ahead(origin, from, direction, reach),
                self.grid@ == beamed_up_to(origin, from, direction, reach),
            invariant
                origin.len() == 256,
                from.in_bounds(),
                position.in_bounds(),
                self.color_counts.matches_cells(self.grid@),
                self.color_counts == old(self).color_counts,
                self.turn_color == old(self).turn_color,
            ensures
                self.grid@ == beamed(origin, from, direction),
            decreases 16 - reach,
        {
            proof {
                if position.spec_step(direction) is Some {
                    lemma_step_ahead(from, direction, position);
                }
            }
            match position.step(direction) {
                None => {
                    proof {
                        assert forall|index: int| 0 <= index < 256 implies beamed_up_to(
                            origin,
                            from,
                            direction,
                            reach,
                        )[index] == beamed(origin, from, direction)[index] by {
                            lemma_index_of_position_at(index);
                            let to = position_at(index);
                            let far = distance_ahead(from, direction, to);
                            assert(far <= reach);
                        }
                        assert(self.grid@ =~= beamed(origin, from, direction));
                    }
                    break ;
                },
                Some(new_pos) => {
                    proof {
                        lemma_position_at_index(new_pos);
                    }
                    let mut node: Node = match self.grid.get(new_pos) {
                        Some(node) => *node,
                        None => break ,
                    };
                    assert(node == origin[new_pos.index()]);
                    if node.is_wall() {
                        proof {
                            assert forall|index: int| 0 <= index < 256 implies beamed_up_to(
                                origin,
                                from,
                                direction,
                                reach,
                            )[index] == beamed(origin, from, direction)[index] by {
                                lemma_index_of_position_at(index);
                                let to = position_at(index);
                                let far = distance_ahead(from, direction, to);
                                if far > reach {
                                    assert(origin[index_ahead(from, direction, reach + 1)] is Wall);
                                    assert(!clear_ahead(origin, from, direction, far));
                                }
                            }
                            assert(self.grid@ =~= beamed(origin, from, direction));
                        }
                        break ;
                    }
                    let ghost cells = self.grid@;
                    node.set_direction(direction);
                    self.grid.set(new_pos.x as usize, new_pos.y as usize, node);
                    position = new_pos;
                    proof {
                        lemma_count_color_same_color(cells, new_pos.index(), node, Color::Red);
                        lemma_count_color_same_color(cells, new_pos.index(), node, Color::Blue);
                        lemma_count_color_same_color(cells, new_pos.index(), node, Color::Yellow);
                        lemma_count_color_same_color(cells, new_pos.index(), node, Color::Green);
                        assert forall|color: Color| #[trigger]
                            self.color_counts.count(color) == count_color(self.grid@, color) by {
                            assert(self.color_counts.count(color) == count_color(cells, color));
                        }
                        assert forall|index: int| 0 <= index < 256 implies self.grid@[index]
                            == beamed_up_to(origin, from, direction, reach + 1)[index] by {
                            lemma_index_of_position_at(index);
                        }
                        assert(self.grid@ =~= beamed_up_to(origin, from, direction, reach + 1));
                        reach = reach + 1;
                    }
                },
            }
        }
    }

    /// Execute turn for the current player.
    ///
    /// The turn is refused, and nothing changes, unless the position is on
    /// the board and the mover owns the node there. Otherwise the node is
    /// rotated, sends its beam if it is a redirector, and the fill from it
    /// gives every cell it marks to the mover; the turn passes to the next
    /// color that still owns a cell, and the winner is returned once only
    /// one color owns any cell.
    pub fn execute_turn(&mut self, turn: Turn) -> (outcome: Result<Option<Color>, TurnError>)
        requires
            old(self).wf(),
        ensures
            final(self).wf(),
            !old(self).may_rotate(turn.rotate) ==> outcome == Err::<Option<Color>, TurnError>(
                TurnError::InvalidRotationPosition,
            ) && *final(self) == *old(self),
            old(self).may_rotate(turn.rotate) ==> final(self).follows(old(self), turn.rotate),
            old(self).may_rotate(turn.rotate) ==> outcome == Ok::<Option<Color>, TurnError>(
                final(self).counts().sole_survivor(),
            ),
    {
        let mut node: Node = match self.grid.get(turn.rotate) {
            Some(node) => *node,
            None => return Err(TurnError::InvalidRotationPosition),
        };
        if !node.is_color(self.turn_color) {
            return Err(TurnError::InvalidRotationPosition);
        }
        let ghost cells = self.grid@;
        proof {
            self.grid.lemma_view_is_flat();
            lemma_position_at_index(turn.rotate);
        }

        node.rotate();
        self.grid.set(turn.rotate.x as usize, turn.rotate.y as usize, node);
        proof {
            lemma_count_color_same_color(cells, turn.rotate.index(), node, Color::Red);
            lemma_count_color_same_color(cells, turn.rotate.index(), node, Color::Blue);
            lemma_count_color_same_color(cells, turn.rotate.index(), node, Color::Yellow);
            lemma_count_color_same_color(cells, turn.rotate.index(), node, Color::Green);
            assert forall|color: Color| #[trigger]
                self.color_counts.count(color) == count_color(self.grid@, color) by {
                assert(self.color_counts.count(color) == count_color(cells, color));
            }
        }

        if let Node::SuperArrow { direction, .. } = node {
            self.project_beam(turn.rotate, direction);
        }
        let ghost aimed = self.grid@;
        assert(aimed == redirected(rotated_at(cells, turn.rotate), turn.rotate));

        let mut visited = [[false; 16]; 16];
        proof {
            self.grid.lemma_view_is_flat();
            assert(marked(visited) =~= Set::empty());
            assert(aimed =~= painted(aimed, marked(visited), self.turn_color));
        }
        let _ = self.fill(turn.rotate, &mut visited, Ghost(aimed));
        proof {
            lemma_spreads_from_nothing(aimed, turn.rotate, marked(visited));
        }

        self.increment_turn();

        match (
            !self.color_counts.is_eliminated(Color::Red),
            !self.color_counts.is_eliminated(Color::Blue),
            !self.color_counts.is_eliminated(Color::Yellow),
            !self.color_counts.is_eliminated(Color::Green),
        ) {
            (true, false, false, false) => Ok(Some(Color::Red)),
            (false, true, false, false) => Ok(Some(Color::Blue)),
            (false, false, true, false) => Ok(Some(Color::Yellow)),
            (false, false, false, true) => Ok(Some(Color::Green)),
            _ => Ok(None),
        }
    }

    /// The board.
    #[verifier::when_used_as_spec(spec_grid)]
    pub fn grid(&self) -> (grid: &Grid)
        ensures
            grid == self.spec_grid(),
    {
        &self.grid
    }

    /// The color whose move is next.
    #[verifier::when_used_as_spec(spec_turn_color)]
    pub fn turn_color(&self) -> (color: Color)
        ensures
            color == self.spec_turn_color(),
    {
        self.turn_color
    }

    /// The weight of `position` on the board as it stands: the number of
    /// visible, pointing nodes that a walk from it comes by.
    pub fn weight(&self, position: Position) -> (weight: u32)
        ensures
            weight == reach::weight_of(self.spec_grid()@, Set::empty(), position),
    {
        let mut visited = [[false; 16]; 16];
        assert(marked(visited) =~= Set::empty());
        self.grid.weight(position, &mut visited)
    }
}

/// Helper for building game state.
///
/// Default values are set when this is constructed. They can be changed if desired.
#[derive(Debug)]
pub struct Builder {
    turn_color: Color,
    grid: Grid,
}

impl Builder {
    /// The board the game will be played on.
    pub closed spec fn spec_grid(&self) -> &Grid {
        &self.grid
    }

    /// The color that will move first.
    pub closed spec fn spec_turn_color(&self) -> Color {
        self.turn_color
    }

    /// Sets the color that moves first.
    pub fn turn_color(self, turn_color: Color) -> (builder: Self)
        ensures
            builder.spec_turn_color() == turn_color,
            builder.spec_grid() == self.spec_grid(),
    {
        Builder { turn_color, grid: self.grid }
    }

    /// Sets the board the game is played on.
    pub fn grid(self, grid: Grid) -> (builder: Self)
        ensures
            builder.spec_grid() == grid,
            builder.spec_turn_color() == self.spec_turn_color(),
    {
        Builder { turn_color: self.turn_color, grid }
    }

    /// The game on the board, with the cells of every color counted.
    pub fn build(self) -> (game: Game)
        ensures
            game.wf(),
            game.spec_grid() == self.spec_grid(),
            game.spec_turn_color() == self.spec_turn_color(),
    {
        let color_counts = self.grid.color_counts();

        Game { turn_color: self.turn_color, color_counts, grid: self.grid }
    }
}

} // verus!
