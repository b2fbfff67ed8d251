use vstd::prelude::*;
use crate::text::same_text;

verus! {

/// Label of the application's single webview window.
pub const MAIN_WINDOW: &'static str = "main";

/// Identifier of the tray-menu entry that brings the main window back.
pub const SHOW_ID: &'static str = "show";

/// Identifier of the tray-menu entry that ends the process.
pub const QUIT_ID: &'static str = "quit";

/// Exit code that the quit entry ends the process with.
pub const QUIT_EXIT_CODE: i32 = 0;

pub open spec fn main_label() -> Seq<char> {
    seq!['m', 'a', 'i', 'n']
}

pub open spec fn show_label() -> Seq<char> {
    seq!['s', 'h', 'o', 'w']
}

pub open spec fn quit_label() -> Seq<char> {
    seq!['q', 'u', 'i', 't']
}

/// Mouse button named by a tray-icon event.
#[derive(Clone, Copy, Debug, PartialEq, Eq, Structural)]
pub enum MouseButton {
    Left,
    Right,
    Middle,
}

/// Whether a tray click reports the button going down or coming up.
#[derive(Clone, Copy, Debug, PartialEq, Eq, Structural)]
pub enum ButtonState {
    Up,
    Down,
}

/// What the pointer did on the tray icon.
#[derive(Clone, Copy, Debug, PartialEq, Eq, Structural)]
pub enum TrayEvent {
    Click { button: MouseButton, button_state: ButtonState },
    DoubleClick { button: MouseButton },
    Enter,
    Move,
    Leave,
}

/// An event that the host framework hands to the shell.
#[derive(Debug)]
pub enum Event {
    /// A tray-menu entry was chosen; `id` is the entry's identifier.
    Menu { id: String },
    /// Something happened on the tray icon.
    Tray { event: TrayEvent },
    /// The user asked to close the window labelled `label`.
    CloseRequested { label: String },
}

/// What the shell asks the host framework to do in answer to an event.
#[derive(Clone, Copy, Debug, PartialEq, Eq, Structural)]
pub enum Action {
    /// Nothing at all.
    Nothing,
    /// Look up the main window; if it exists, show it, unminimize it and
    /// give it the input focus.
    RevealMain,
    /// Suppress the default close of the requesting window and hide it.
    HideWindow,
    /// End the process with the given exit code.
    Exit { code: i32 },
}

/// The action owed to the menu entry `id`.
pub open spec fn menu_action_of(id: Seq<char>) -> Action {
    if id == show_label() {
        Action::RevealMain
    } else if id == quit_label() {
        Action::Exit { code: 0 }
    } else {
        Action::Nothing
    }
}

/// A completed left click: the left button came up on the icon.
pub open spec fn is_left_release(ev: TrayEvent) -> bool {
    ev == (TrayEvent::Click { button: MouseButton::Left, button_state: ButtonState::Up })
}

/// The action owed to a tray-icon event.
pub open spec fn tray_action_of(ev: TrayEvent) -> Action {
    if is_left_release(ev) {
        Action::RevealMain
    } else {
        Action::Nothing
    }
}

/// The action owed to any event.
pub open spec fn action_of(ev: Event) -> Action {
    match ev {
        Event::Menu { id } => menu_action_of(id@),
        Event::Tray { event } => tray_action_of(event),
        Event::CloseRequested { .. } => Action::HideWindow,
    }
}

/// Dispatches on the identifier of the chosen tray-menu entry.
pub fn menu_action(id: &str) -> (a: Action)
    ensures
        a == menu_action_of(id@),
{
    proof {
        reveal_strlit("show");
        reveal_strlit("quit");
        assert(SHOW_ID@ =~= show_label());
        assert(QUIT_ID@ =~= quit_label());
    }
    if same_text(id, SHOW_ID) {
        Action::RevealMain
    } else if same_text(id, QUIT_ID) {
        Action::Exit { code: QUIT_EXIT_CODE }
    } else {
        Action::Nothing
    }
}

/// Dispatches on the shape of a tray-icon event: only a completed left click
/// asks for anything.
pub fn tray_action(ev: &TrayEvent) -> (a: Action)
    ensures
        a == tray_action_of(*ev),
{
    match ev {
        TrayEvent::Click { button: MouseButton::Left, button_state: ButtonState::Up } => {
            Action::RevealMain
        },
        _ => Action::Nothing,
    }
}

/// The action for any event the host framework delivers.
pub fn action_for(ev: &Event) -> (a: Action)
    ensures
        a == action_of(*ev),
{
    match ev {
        Event::Menu { id } => menu_action(id.as_str()),
        Event::Tray { event } => tray_action(event),
        Event::CloseRequested { .. } => Action::HideWindow,
    }
}

} // verus!
