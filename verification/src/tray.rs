//! Routing of tray-menu clicks and window-close requests.
use vstd::prelude::*;
use vstd::string::StringExecFns;

verus! {

/// What a click on a tray-menu item asks for.
#[derive(Clone, Copy, Debug, PartialEq, Eq, Structural)]
pub enum MenuAction {
    /// Leave the application with exit code 0.
    Quit,
    /// Bring the main window back: unminimize, show and focus it.
    ShowMainWindow,
    /// An item nobody handles; it is only reported.
    Unhandled,
}

/// What to do when a window asks to be closed.
#[derive(Clone, Copy, Debug, PartialEq, Eq, Structural)]
pub enum CloseAction {
    /// Keep the window alive and hide it instead.
    HideInstead,
    /// Let the window close.
    Allow,
}

fn text_equals(a: &String, b: &str) -> (r: bool)
    ensures
        r == (a@ == b@),
{
    *a == String::from_str(b)
}

/// The action of the tray-menu item with identifier `id`.
pub fn menu_action(id: &String) -> (a: MenuAction)
    ensures
        a == (if id@ == "quit"@ {
            MenuAction::Quit
        } else if id@ == "show"@ {
            MenuAction::ShowMainWindow
        } else {
            MenuAction::Unhandled
        }),
{
    if text_equals(id, "quit") {
        MenuAction::Quit
    } else if text_equals(id, "show") {
        MenuAction::ShowMainWindow
    } else {
        MenuAction::Unhandled
    }
}

/// What to do with a close request of the window labelled `label`: the main
/// window is only hidden, every other window closes.
pub fn close_request_action(label: &String) -> (a: CloseAction)
    ensures
        a == (if label@ == "main"@ {
            CloseAction::HideInstead
        } else {
            CloseAction::Allow
        }),
{
    if text_equals(label, "main") {
        CloseAction::HideInstead
    } else {
        CloseAction::Allow
    }
}

} // verus!
