//! Reactions to the tray menu and to what happens to the windows.

use vstd::prelude::*;
use crate::launch::Surface;

verus! {

/// Identifier of the tray entry that opens the settings.
pub const TRAY_SETTINGS: &'static str = "settings";

/// Identifier of the tray entry that ends the program.
pub const TRAY_QUIT: &'static str = "quit";

/// What a click on a tray entry asks for.
#[derive(Debug, Clone, Copy, PartialEq, Eq)]
pub enum TrayAction {
    /// Bring the settings window up.
    OpenSettings,
    /// End the program.
    Quit,
    /// The entry is not one of this program's.
    Nothing,
}

/// The action behind the tray entry with identifier `id`.
pub open spec fn tray_action(id: Seq<char>) -> TrayAction {
    if id == "settings"@ {
        TrayAction::OpenSettings
    } else if id == "quit"@ {
        TrayAction::Quit
    } else {
        TrayAction::Nothing
    }
}

/// Decides what a click on the tray entry `id` asks for.
pub fn on_tray_item(id: &str) -> (action: TrayAction)
    ensures
        action == tray_action(id@),
{
    let clicked: String = id.to_owned();
    if clicked == TRAY_SETTINGS.to_owned() {
        TrayAction::OpenSettings
    } else if clicked == TRAY_QUIT.to_owned() {
        TrayAction::Quit
    } else {
        TrayAction::Nothing
    }
}

/// What happened to a window, as far as the launcher reacts to it.
#[derive(Debug, Clone, Copy, PartialEq, Eq)]
pub enum WindowEvent {
    /// The user asked to close the window.
    CloseRequested,
    /// The window gained (`true`) or lost (`false`) the focus.
    Focused(bool),
    /// Anything else.
    Other,
}

/// What is done to a window after an event.
#[derive(Debug, Clone, Copy, PartialEq, Eq)]
pub enum WindowReaction {
    /// Hide the window and keep it from closing, so that it can come up
    /// again.
    HideInsteadOfClosing,
    /// Hide the window.
    Hide,
    Nothing,
}

/// The reaction to `event` on the window known as `label`: no window is
/// ever closed, it is hidden; the search window hides as soon as it loses
/// the focus.
pub open spec fn window_reaction(label: Seq<char>, event: WindowEvent) -> WindowReaction {
    match event {
        WindowEvent::CloseRequested => WindowReaction::HideInsteadOfClosing,
        WindowEvent::Focused(focused) => if !focused && label == Surface::Main.label_text() {
            WindowReaction::Hide
        } else {
            WindowReaction::Nothing
        },
        WindowEvent::Other => WindowReaction::Nothing,
    }
}

/// Decides what is done to the window known as `label` after `event`.
pub fn on_window_event(label: &str, event: WindowEvent) -> (reaction: WindowReaction)
    ensures
        reaction == window_reaction(label@, event),
{
    match event {
        WindowEvent::CloseRequested => WindowReaction::HideInsteadOfClosing,
        WindowEvent::Focused(focused) => {
            if !focused && label.to_owned() == Surface::Main.label().to_owned() {
                WindowReaction::Hide
            } else {
                WindowReaction::Nothing
            }
        },
        WindowEvent::Other => WindowReaction::Nothing,
    }
}

} // verus!
