//! The screen shown when the program starts.

use crate::mmio::keys::KeyInput;
use vstd::prelude::*;

verus! {

/// The number of frames after which the splash screen gives way by itself.
pub const SPLASH_FRAMES: u16 = 180;

/// The splash screen, which counts the frames it has been shown for.
#[derive(Debug)]
pub struct Splash {
    frame_count: u16,
}

impl Splash {
    /// The number of frames counted.
    pub closed spec fn view(&self) -> u16 {
        self.frame_count
    }

    /// A splash screen that has not been shown yet.
    pub fn new() -> (splash: Self)
        ensures
            splash@ == 0,
    {
        Self { frame_count: 0 }
    }

    /// Whether the splash screen gives way to the title in a frame with
    /// `keys` held: after its time is up, or when the A button is held.
    pub open spec fn leaves(&self, keys: KeyInput) -> bool {
        self@ > SPLASH_FRAMES || keys.spec_contains(KeyInput::spec_a())
    }

    /// One frame of the splash screen, with `keys` held. Returns whether the
    /// title screen is to follow; if not, the frame is counted.
    pub fn run(&mut self, keys: KeyInput) -> (done: bool)
        ensures
            done == old(self).leaves(keys),
            done ==> final(self)@ == old(self)@,
            !done ==> final(self)@ == old(self)@ + 1,
    {
        if self.frame_count > SPLASH_FRAMES || keys.contains(KeyInput::a()) {
            true
        } else {
            self.frame_count += 1;
            false
        }
    }
}

} // verus!
