//! Input events, reduced to what the shell looks at.

use vstd::prelude::*;

verus! {

/// A key of the keyboard. Only Escape is told apart from the rest.
#[derive(Clone, Copy, Debug, PartialEq, Eq, Structural)]
pub enum Key {
    Escape,
    Other,
}

/// One input event of a frame's batch.
#[derive(Clone, Copy, Debug, PartialEq, Eq, Structural)]
pub enum InputEvent {
    /// A key went down (`pressed`) or came up (`!pressed`).
    Key { key: Key, pressed: bool },
    /// Any event that is not a key event.
    Other,
}

/// The keys whose press was completed in a batch of events. A press counts as
/// completed when the key is let go: holding a key down does nothing yet.
#[derive(Clone, Copy, Debug, PartialEq, Eq, Structural)]
pub struct PressKeys {
    pub escape: bool,
}

impl InputEvent {
    /// This event reports that Escape was let go.
    pub open spec fn is_escape_release(self) -> bool {
        self == (InputEvent::Key { key: Key::Escape, pressed: false })
    }

    /// Executable form of [`InputEvent::is_escape_release`].
    pub fn escape_release(&self) -> (b: bool)
        ensures
            b == self.is_escape_release(),
    {
        match self {
            InputEvent::Key { key: Key::Escape, pressed } => !*pressed,
            _ => false,
        }
    }
}

/// Some event of the batch reports that Escape was let go.
pub open spec fn escape_released(events: Seq<InputEvent>) -> bool {
    exists|i: int| 0 <= i < events.len() && (#[trigger] events[i]).is_escape_release()
}

} // verus!
