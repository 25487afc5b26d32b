//! What the pointer can do to the tray icon.

use vstd::prelude::*;

verus! {

/// The mouse button that an event is about.
#[derive(Clone, Copy, Debug, PartialEq, Eq)]
pub enum MouseButton {
    Left,
    Right,
    Middle,
}

/// Whether the button went down or came up.
#[derive(Clone, Copy, Debug, PartialEq, Eq)]
pub enum MouseButtonState {
    Up,
    Down,
}

/// An event on the tray icon, without the icon's identity and the pointer's
/// position, which no decision depends on.
#[derive(Clone, Copy, Debug, PartialEq, Eq)]
pub enum TrayEvent {
    /// A button was pressed or released on the icon.
    Click { button: MouseButton, state: MouseButtonState },
    /// A button was clicked twice on the icon.
    DoubleClick { button: MouseButton },
    /// The pointer entered the icon's area.
    Enter,
    /// The pointer moved inside the icon's area.
    Move,
    /// The pointer left the icon's area.
    Leave,
    /// An event of a kind that is not told apart here.
    Other,
}

impl TrayEvent {
    /// Whether the event is a click with the left button. The press and the
    /// release both count; a double click does not.
    pub open spec fn is_left_click(self) -> bool {
        self matches TrayEvent::Click { button, .. } && button == MouseButton::Left
    }

    /// Whether the event is a click with the left button.
    pub fn left_click(&self) -> (left: bool)
        ensures
            left == self.is_left_click(),
    {
        match self {
            TrayEvent::Click { button: MouseButton::Left, .. } => true,
            _ => false,
        }
    }
}

} // verus!
