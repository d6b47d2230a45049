//! State of the terminal view.

use vstd::prelude::*;

verus! {

/// The terminal view: it runs until a key is pressed.
#[derive(Debug, Default)]
pub struct App {
    exit: bool,
}

impl App {
    /// Whether the view is to close.
    pub closed spec fn exiting(&self) -> bool {
        self.exit
    }

    /// A view that keeps running.
    pub fn new() -> (r: App)
        ensures
            !r.exiting(),
    {
        App { exit: false }
    }

    /// Takes one terminal event; a key press closes the view.
    pub fn handle_event(&mut self, is_key: bool)
        ensures
            final(self).exiting() == (old(self).exiting() || is_key),
    {
        if is_key {
            self.exit = true;
        }
    }

    /// Whether the view is to close.
    pub fn should_exit(&self) -> (r: bool)
        ensures
            r == self.exiting(),
    {
        self.exit
    }
}

} // verus!
