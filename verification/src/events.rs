//! What the events of the tray icon and of the global shortcut ask for.

use vstd::prelude::*;
use crate::text::same_text;

verus! {

/// What an event asks the application to do.
#[derive(Clone, Copy, Debug, PartialEq, Eq, Structural)]
pub enum EventAction {
    /// Flip the main window and all sticky notes between shown and hidden.
    ToggleWindows,
    /// Show the main window and tell the front end to open a new sticky note.
    NewStickyWindow,
    /// End the process.
    Quit,
    /// Nothing.
    Ignore,
}

/// A button of the mouse.
#[derive(Clone, Copy, Debug, PartialEq, Eq, Structural)]
pub enum MouseButton {
    Left,
    Right,
    Middle,
}

/// Whether a button or a key went down or came up.
#[derive(Clone, Copy, Debug, PartialEq, Eq, Structural)]
pub enum Motion {
    Down,
    Up,
}

/// What the tray menu item `item_id` asks for.
pub open spec fn menu_action(item_id: Seq<char>) -> EventAction {
    if item_id == "show"@ {
        EventAction::ToggleWindows
    } else if item_id == "new_sticky_window"@ {
        EventAction::NewStickyWindow
    } else if item_id == "quit"@ {
        EventAction::Quit
    } else {
        EventAction::Ignore
    }
}

/// What a choice of the tray menu item `item_id` asks for.
pub fn tray_menu_action(item_id: &str) -> (action: EventAction)
    ensures
        action == menu_action(item_id@),
{
    if same_text(item_id, "show") {
        EventAction::ToggleWindows
    } else if same_text(item_id, "new_sticky_window") {
        EventAction::NewStickyWindow
    } else if same_text(item_id, "quit") {
        EventAction::Quit
    } else {
        EventAction::Ignore
    }
}

/// What a click on the tray icon asks for: the left button, when it comes up,
/// flips the windows.
pub fn tray_click_action(button: MouseButton, motion: Motion) -> (action: EventAction)
    ensures
        action == (if button == MouseButton::Left && motion == Motion::Up {
            EventAction::ToggleWindows
        } else {
            EventAction::Ignore
        }),
{
    match (button, motion) {
        (MouseButton::Left, Motion::Up) => EventAction::ToggleWindows,
        _ => EventAction::Ignore,
    }
}

/// What the global shortcut asks for: it flips the windows when its keys come
/// up, and not before.
pub fn shortcut_action(motion: Motion) -> (action: EventAction)
    ensures
        action == (if motion == Motion::Up {
            EventAction::ToggleWindows
        } else {
            EventAction::Ignore
        }),
{
    match motion {
        Motion::Up => EventAction::ToggleWindows,
        Motion::Down => EventAction::Ignore,
    }
}

} // verus!
