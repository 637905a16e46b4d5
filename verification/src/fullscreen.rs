//! Whether the player fills the screen, and whether it should.
//!
//! A wish for another state is noted when it is made and carried out with
//! the next redraw, where the window can be told.

use vstd::prelude::*;

verus! {

/// The fullscreen state that is, and the one that is wished for.
#[derive(Clone, Copy, Debug, PartialEq, Eq, Structural)]
pub struct TempSettings {
    pub is_fullscreen: bool,
    pub queued_fullscreen_state: bool,
}

impl TempSettings {
    /// A wish stands that the redraw has not carried out.
    pub open spec fn pending(self) -> bool {
        self.queued_fullscreen_state != self.is_fullscreen
    }

    /// Windowed, with no wish open.
    pub fn new() -> (settings: TempSettings)
        ensures
            !settings.is_fullscreen,
            !settings.queued_fullscreen_state,
    {
        TempSettings { is_fullscreen: false, queued_fullscreen_state: false }
    }

    /// Wishes for the state `to`, where that is not the state that is.
    pub fn set_fullscreen(&mut self, to: bool)
        ensures
            final(self).is_fullscreen == old(self).is_fullscreen,
            final(self).queued_fullscreen_state == (if old(self).is_fullscreen != to {
                to
            } else {
                old(self).queued_fullscreen_state
            }),
    {
        if self.is_fullscreen != to {
            self.queued_fullscreen_state = to;
        }
    }

    /// Turns the wish around.
    pub fn toggle_fullscreen(&mut self)
        ensures
            final(self).is_fullscreen == old(self).is_fullscreen,
            final(self).queued_fullscreen_state == !old(self).queued_fullscreen_state,
    {
        self.queued_fullscreen_state = !self.queued_fullscreen_state;
    }

    /// Carries out an open wish: the state becomes the wished one, and the
    /// result is what the window has to be told. `None` where no wish is
    /// open.
    pub fn manage_fullscreen_state(&mut self) -> (command: Option<bool>)
        ensures
            final(self).queued_fullscreen_state == old(self).queued_fullscreen_state,
            final(self).is_fullscreen == old(self).queued_fullscreen_state,
            !final(self).pending(),
            command == (if old(self).pending() {
                Some(old(self).queued_fullscreen_state)
            } else {
                None
            }),
    {
        if self.queued_fullscreen_state != self.is_fullscreen {
            self.is_fullscreen = self.queued_fullscreen_state;
            Some(self.queued_fullscreen_state)
        } else {
            None
        }
    }
}

} // verus!
