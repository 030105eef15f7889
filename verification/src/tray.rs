//! The tray menu's decision kernel: which action each menu entry triggers.
//! Building the menu and dispatching the chosen action are the shell's job.

use vstd::prelude::*;
use vstd::string::StringExecFns;

verus! {

/// Action behind a tray menu entry.
#[derive(Clone, Copy, Debug, PartialEq, Eq, Structural)]
pub enum TrayAction {
    Quit,
    Preferences,
    OpenFolder,
    CaptureFullscreen,
    CaptureArea,
    CaptureWindow,
    Ignored,
}

/// The action of a menu entry id; unknown ids are ignored.
pub open spec fn menu_action_spec(id: Seq<char>) -> TrayAction {
    if id == "quit"@ {
        TrayAction::Quit
    } else if id == "preferences"@ {
        TrayAction::Preferences
    } else if id == "open_folder"@ {
        TrayAction::OpenFolder
    } else if id == "capture_fullscreen"@ {
        TrayAction::CaptureFullscreen
    } else if id == "capture_area"@ {
        TrayAction::CaptureArea
    } else if id == "capture_window"@ {
        TrayAction::CaptureWindow
    } else {
        TrayAction::Ignored
    }
}

/// Text equality of two string slices.
fn str_eq(a: &str, b: &str) -> (r: bool)
    ensures
        r == (a@ == b@),
{
    let sa: String = a.to_owned();
    let sb: String = b.to_owned();
    sa == sb
}

/// Decide the action of a clicked menu entry.
pub fn menu_action(id: &str) -> (r: TrayAction)
    ensures
        r == menu_action_spec(id@),
{
    if str_eq(id, "quit") {
        TrayAction::Quit
    } else if str_eq(id, "preferences") {
        TrayAction::Preferences
    } else if str_eq(id, "open_folder") {
        TrayAction::OpenFolder
    } else if str_eq(id, "capture_fullscreen") {
        TrayAction::CaptureFullscreen
    } else if str_eq(id, "capture_area") {
        TrayAction::CaptureArea
    } else if str_eq(id, "capture_window") {
        TrayAction::CaptureWindow
    } else {
        TrayAction::Ignored
    }
}

} // verus!
