//! What the tray does when the user picks a menu item or clicks the icon.
//!
//! These decisions do not touch the tray state. The host carries the action
//! out and ignores a failure to do so: a missing window is a normal state.

use vstd::prelude::*;

verus! {

/// A mouse button reported with a click on the tray icon.
#[derive(Debug, Clone, Copy, PartialEq, Eq, Structural)]
pub enum MouseButton {
    Left,
    Right,
    Middle,
}

/// Whether the button went down or came up.
#[derive(Debug, Clone, Copy, PartialEq, Eq, Structural)]
pub enum MouseButtonState {
    Up,
    Down,
}

/// An event on the tray icon itself.
#[derive(Debug, Clone, Copy, PartialEq, Eq, Structural)]
pub enum TrayIconEvent {
    Click { button: MouseButton, button_state: MouseButtonState },
    DoubleClick { button: MouseButton },
    Enter,
    Move,
    Leave,
}

/// What the host is to do in answer to an event.
#[derive(Debug, Clone, PartialEq, Eq)]
pub enum TrayAction {
    /// Send the named signal, which carries no payload, to the main window.
    Emit { event: String },
    /// Reveal the main window and give it the focus.
    ShowWindow,
    /// End the process with this exit code.
    Exit { code: i32 },
    /// Nothing to do.
    Ignore,
}

/// What a `TrayAction` holds, as mathematical values.
pub enum TrayActionView {
    Emit { event: Seq<char> },
    ShowWindow,
    Exit { code: i32 },
    Ignore,
}

impl View for TrayAction {
    type V = TrayActionView;

    open spec fn view(&self) -> TrayActionView {
        match self {
            TrayAction::Emit { event } => TrayActionView::Emit { event: event@ },
            TrayAction::ShowWindow => TrayActionView::ShowWindow,
            TrayAction::Exit { code } => TrayActionView::Exit { code: *code },
            TrayAction::Ignore => TrayActionView::Ignore,
        }
    }
}

/// The action behind each menu item, by the item's id. The informational
/// lines and unknown ids have none.
pub open spec fn menu_action(id: Seq<char>) -> TrayActionView {
    if id == "new_chat"@ {
        TrayActionView::Emit { event: "tray-new-chat"@ }
    } else if id == "show"@ {
        TrayActionView::ShowWindow
    } else if id == "settings"@ {
        TrayActionView::Emit { event: "tray-settings"@ }
    } else if id == "quit"@ {
        TrayActionView::Exit { code: 0 }
    } else {
        TrayActionView::Ignore
    }
}

/// The action behind an event on the tray icon: releasing the left button
/// shows the window, as the "show" item does.
pub open spec fn icon_action(event: TrayIconEvent) -> TrayActionView {
    if event == (TrayIconEvent::Click {
        button: MouseButton::Left,
        button_state: MouseButtonState::Up,
    }) {
        TrayActionView::ShowWindow
    } else {
        TrayActionView::Ignore
    }
}

/// Decides what to do when the menu item with this id was selected.
pub fn on_menu_event(id: &str) -> (action: TrayAction)
    ensures
        action@ == menu_action(id@),
{
    let id = String::from_str(id);
    if id == String::from_str("new_chat") {
        TrayAction::Emit { event: String::from_str("tray-new-chat") }
    } else if id == String::from_str("show") {
        TrayAction::ShowWindow
    } else if id == String::from_str("settings") {
        TrayAction::Emit { event: String::from_str("tray-settings") }
    } else if id == String::from_str("quit") {
        TrayAction::Exit { code: 0 }
    } else {
        TrayAction::Ignore
    }
}

/// Decides what to do on an event of the tray icon.
pub fn on_tray_icon_event(event: TrayIconEvent) -> (action: TrayAction)
    ensures
        action@ == icon_action(event),
{
    match event {
        TrayIconEvent::Click { button: MouseButton::Left, button_state: MouseButtonState::Up } => {
            TrayAction::ShowWindow
        },
        _ => TrayAction::Ignore,
    }
}

} // verus!
