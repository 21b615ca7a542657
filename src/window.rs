//! The lifecycle of one game's window: open or closed, and the drawing size
//! seen on the last frame it was shown.
//!
//! The host asks on every frame what to do with the game and does it, in the
//! order update, resize, draw. Closing the window keeps the game, so reopening
//! it resumes where it stood.

use vstd::prelude::*;
use crate::render::Area;

verus! {

/// What the host does with a game on one frame, in this order.
#[derive(Clone, Copy, Debug, PartialEq, Eq, Structural)]
pub struct FrameActions {
    /// Advance the game by one frame.
    pub update: bool,
    /// Rebuild the game for a new drawing size.
    pub resize: bool,
    /// Paint the game.
    pub draw: bool,
}

/// The window state of one game.
#[derive(Clone, Copy, Debug, PartialEq, Eq, Structural)]
pub struct WindowedGame {
    /// The window is shown.
    pub opened: bool,
    /// The drawing size seen on the last frame the window was shown.
    pub size: Area,
}

impl WindowedGame {
    /// The state after a toggle: open and closed swap, the size stays.
    pub open spec fn toggled(self) -> WindowedGame {
        WindowedGame { opened: !self.opened, size: self.size }
    }

    /// What a frame with drawing size `available` asks of the game.
    pub open spec fn actions_for(self, available: Area) -> FrameActions {
        if self.opened {
            FrameActions { update: true, resize: self.size != available, draw: true }
        } else {
            FrameActions { update: false, resize: false, draw: false }
        }
    }

    /// The state after a frame with drawing size `available`.
    pub open spec fn after_frame(self, available: Area) -> WindowedGame {
        if self.opened {
            WindowedGame { opened: true, size: available }
        } else {
            self
        }
    }

    /// A closed window that has not been shown yet.
    pub fn new() -> (r: WindowedGame)
        ensures
            !r.opened,
            r.size == (Area { width: 0, height: 0 }),
    {
        WindowedGame { opened: false, size: Area { width: 0, height: 0 } }
    }

    /// Whether the window is shown.
    pub fn is_open(&self) -> (r: bool)
        ensures
            r == self.opened,
    {
        self.opened
    }

    /// The toggle that the game's button in the shell triggers.
    pub fn clicked(&mut self)
        ensures
            *final(self) == old(self).toggled(),
    {
        self.opened = !self.opened;
    }

    /// The user closed the window from its own frame.
    pub fn close(&mut self)
        ensures
            !final(self).opened,
            final(self).size == old(self).size,
    {
        self.opened = false;
    }

    /// Decides one frame of the game, given the drawing size seen inside its
    /// window: a shown game is updated, rebuilt when that size differs from
    /// the last one seen, and drawn, even on the frame of a rebuild; a hidden
    /// game is left alone.
    pub fn handle(&mut self, available: Area) -> (r: FrameActions)
        ensures
            r == old(self).actions_for(available),
            *final(self) == old(self).after_frame(available),
    {
        if self.opened {
            let resize = self.size != available;
            self.size = available;
            FrameActions { update: true, resize, draw: true }
        } else {
            FrameActions { update: false, resize: false, draw: false }
        }
    }
}

impl Default for WindowedGame {
    fn default() -> (r: WindowedGame)
        ensures
            !r.opened,
            r.size == (Area { width: 0, height: 0 }),
    {
        WindowedGame::new()
    }
}

/// A toggle is a flip of open and closed, not a count: the state after it
/// depends only on the state before, it always changes whether the window is
/// shown, and two toggles in a row give back the state they started from.
pub proof fn lemma_toggle_is_flip(w: WindowedGame)
    ensures
        w.toggled().opened != w.opened,
        w.toggled().size == w.size,
        w.toggled().toggled() == w,
{
}

/// Within one frame a game is rebuilt at most once, and only when the size it
/// sees differs from the last one recorded; a second frame at the same size
/// rebuilds nothing.
pub proof fn lemma_resize_only_on_change(w: WindowedGame, available: Area)
    ensures
        w.actions_for(available).resize ==> w.opened && w.size != available,
        !w.after_frame(available).actions_for(available).resize,
{
}

} // verus!
