//! What each screen of the program decides, frame by frame.
//!
//! A screen takes the keys that are held and says what is to be shown next.
//! Showing it, and waiting for the display, is for the program.

use vstd::prelude::*;

pub mod game;
pub mod game_over;
pub mod splash;
pub mod title;

pub use game::Game;
pub use game_over::GameOver;
pub use splash::Splash;
pub use title::Title;

use game::{bot_frame, drawn, player_frame, Block, Frame};
use game_over::PlayerResult;
use crate::mmio::keys::KeyInput;
use title::starts_game;

verus! {

/// The screen the program is on.
pub enum Screen {
    Splash(Splash),
    Title(Title),
    Game(Game),
    GameOver(GameOver),
}

/// What the program is to do after a frame.
pub enum Step {
    /// Nothing has changed.
    Wait,
    /// Another screen has been entered and is to be set up.
    Entered,
    /// The game has been won: the board, which these blocks show, is to be
    /// drawn once more, then the screen that has been entered is to be set
    /// up.
    EnteredAfter(Vec<Block>),
    /// The game goes on, and the frame is to be shown.
    Shown(Frame),
}

/// Whether the screen `after` and the step `step` are what one frame with
/// `keys` held makes of the screen `before`.
///
/// The splash screen and the screen at the end of the game give way to a
/// fresh title screen; the title screen gives way to a new game; a game
/// gives way to the screen at its end once the player has lost or won.
pub open spec fn follows_frame(before: Screen, keys: KeyInput, after: Screen, step: Step) -> bool {
    match before {
        Screen::Splash(splash) => if splash.leaves(keys) {
            &&& step is Entered
            &&& after matches Screen::Title(title)
            &&& title@ == 0
        } else {
            &&& step is Wait
            &&& after matches Screen::Splash(counted)
            &&& counted@ == splash@ + 1
        },
        Screen::Title(title) => if keys.spec_contains(KeyInput::spec_a()) {
            &&& step is Entered
            &&& after matches Screen::Game(screen)
            &&& starts_game(screen@, title@)
        } else {
            &&& step is Wait
            &&& after matches Screen::Title(counted)
            &&& counted@ == if title@ == u32::MAX {
                0
            } else {
                title@ + 1
            }
        },
        Screen::Game(screen) => {
            let eliminated = screen@.state.counts().spec_is_eliminated(screen@.player_color);
            let players_turn = screen@.state.spec_turn_color() == screen@.player_color;
            match step {
                Step::Wait => false,
                Step::Entered => {
                    &&& eliminated
                    &&& after matches Screen::GameOver(over)
                    &&& over@ == PlayerResult::Lose
                },
                Step::EnteredAfter(blocks) => {
                    &&& !eliminated
                    &&& players_turn
                    &&& after matches Screen::GameOver(over)
                    &&& over@ == PlayerResult::Win
                    &&& exists|last: game::GameState|
                        player_frame(screen@, keys, last, Frame::Won) && blocks@ == drawn(
                            last.state.spec_grid()@,
                        )
                },
                Step::Shown(frame) => {
                    &&& !eliminated
                    &&& after matches Screen::Game(next)
                    &&& if players_turn {
                        player_frame(screen@, keys, next@, frame)
                    } else {
                        bot_frame(screen@, next@, frame)
                    }
                },
            }
        },
        Screen::GameOver(over) => if keys.spec_contains(KeyInput::spec_a()) {
            &&& step is Entered
            &&& after matches Screen::Title(title)
            &&& title@ == 0
        } else {
            &&& step is Wait
            &&& after matches Screen::GameOver(same)
            &&& same@ == over@
        },
    }
}

impl Screen {
    /// The invariant of the screens: a game in play is well formed.
    pub open spec fn wf(&self) -> bool {
        self matches Screen::Game(screen) ==> screen@.state.wf()
    }

    // To be run continually in a loop.
    /// One frame of the program, with `keys` held.
    pub fn run(&mut self, keys: KeyInput) -> (step: Step)
        requires
            old(self).wf(),
        ensures
            final(self).wf(),
            follows_frame(*old(self), keys, *final(self), step),
    {
        match self {
            Screen::Splash(splash) => {
                if splash.run(keys) {
                    *self = Screen::Title(Title::new());
                    Step::Entered
                } else {
                    Step::Wait
                }
            },
            Screen::Title(title) => {
                match title.run(keys) {
                    Some(screen) => {
                        *self = Screen::Game(screen);
                        Step::Entered
                    },
                    None => Step::Wait,
                }
            },
            Screen::Game(screen) => {
                let ghost before = screen@;
                match screen.run(keys) {
                    Frame::Lost => {
                        *self = Screen::GameOver(GameOver::new(PlayerResult::Lose));
                        Step::Entered
                    },
                    Frame::Won => {
                        let blocks = screen.draw();
                        assert(player_frame(before, keys, screen@, Frame::Won));
                        *self = Screen::GameOver(GameOver::new(PlayerResult::Win));
                        Step::EnteredAfter(blocks)
                    },
                    frame => Step::Shown(frame),
                }
            },
            Screen::GameOver(over) => {
                if over.run(keys) {
                    *self = Screen::Title(Title::new());
                    Step::Entered
                } else {
                    Step::Wait
                }
            },
        }
    }
}

impl Default for Screen {
    /// The program starts on the splash screen.
    fn default() -> (screen: Self)
        ensures
            (screen matches Screen::Splash(splash) && splash@ == 0),
    {
        Self::Splash(Splash::new())
    }
}

} // verus!
