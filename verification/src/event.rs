//! Window events, reduced to what the render loop reads from them.

use vstd::prelude::*;

verus! {

/// A key of the keyboard, as far as the demo tells keys apart.
#[derive(Clone, Copy, Debug, PartialEq, Eq, Structural)]
pub enum Key {
    /// The Escape key.
    Escape,
    /// Any other key.
    Other,
}

/// One event taken from the window system's queue.
#[derive(Clone, Copy, Debug, PartialEq, Eq, Structural)]
pub enum WindowEvent {
    /// The user asked to close the window.
    Quit,
    /// A key went down. `key` is `None` where the window system could not
    /// name the key.
    KeyDown { key: Option<Key> },
    /// Anything else: mouse motion, key releases, window resizes and so on.
    Other,
}

impl WindowEvent {
    /// Whether this event asks the demo to stop: a window-close request, or
    /// Escape going down.
    pub open spec fn requests_quit(self) -> bool {
        self == WindowEvent::Quit || self == (WindowEvent::KeyDown { key: Some(Key::Escape) })
    }

    /// Tells whether this event asks the demo to stop.
    pub fn is_quit_request(&self) -> (quit: bool)
        ensures
            quit == self.requests_quit(),
    {
        match self {
            WindowEvent::Quit => true,
            WindowEvent::KeyDown { key: Some(Key::Escape) } => true,
            _ => false,
        }
    }
}

} // verus!
