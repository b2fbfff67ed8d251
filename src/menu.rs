use vstd::prelude::*;
use vstd::string::StringExecFns;
use crate::events::{Action, menu_action_of, quit_label, show_label, QUIT_ID, SHOW_ID};

verus! {

/// One entry of the tray icon's context menu.
#[derive(Debug)]
pub struct MenuEntry {
    /// The identifier that menu events carry back.
    pub id: String,
    /// The text shown to the user.
    pub label: String,
    pub enabled: bool,
}

/// The tray icon's context menu: open the window, then exit, both enabled.
/// Each entry's identifier dispatches to an action.
pub fn tray_menu() -> (m: Vec<MenuEntry>)
    ensures
        m@.len() == 2,
        m@[0].id@ == show_label(),
        m@[0].label@ == "Mở SmartCal"@,
        m@[1].id@ == quit_label(),
        m@[1].label@ == "Thoát"@,
        forall|i: int| 0 <= i < m@.len() ==> (#[trigger] m@[i]).enabled,
        forall|i: int|
            0 <= i < m@.len() ==> menu_action_of((#[trigger] m@[i]).id@) != Action::Nothing,
{
    proof {
        reveal_strlit("show");
        reveal_strlit("quit");
        assert(SHOW_ID@ =~= show_label());
        assert(QUIT_ID@ =~= quit_label());
    }
    let show = MenuEntry {
        id: String::from_str(SHOW_ID),
        label: String::from_str("Mở SmartCal"),
        enabled: true,
    };
    let quit = MenuEntry {
        id: String::from_str(QUIT_ID),
        label: String::from_str("Thoát"),
        enabled: true,
    };
    let m = vec![show, quit];
    m
}

/// The tooltip of the tray icon.
pub fn tray_tooltip() -> (t: String)
    ensures
        t@ == "SmartCal - Lịch thông minh"@,
{
    String::from_str("SmartCal - Lịch thông minh")
}

} // verus!
