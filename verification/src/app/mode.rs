//! What the keyboard is attached to.

use vstd::prelude::*;

verus! {

/// The part of the screen, or the task, that key presses go to.
#[derive(Debug, Clone)]
pub enum AppMode {
    /// The sidebar: servers, channels and direct messages.
    Sidebar,
    /// The messages of the selected channel.
    Messages,
    /// The input line.
    Input,
    /// The settings screen.
    Settings,
    /// The settings screen, waiting for the key to bind to the named action.
    KeybindRecording(String),
}

impl AppMode {
    /// Whether the settings screen is shown.
    pub open spec fn shows_settings(&self) -> bool {
        *self is Settings || *self is KeybindRecording
    }

    /// Whether the settings screen is shown.
    pub fn is_settings(&self) -> (yes: bool)
        ensures
            yes == self.shows_settings(),
    {
        match self {
            AppMode::Settings => true,
            AppMode::KeybindRecording(_) => true,
            _ => false,
        }
    }
}

} // verus!
