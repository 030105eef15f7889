//! The global-hotkey table. Registration with the platform is the shell's
//! job; the combinations and the action each one triggers are decided here.

use vstd::prelude::*;
use vstd::string::StringExecFns;

verus! {

/// Which modifier prefix the hotkeys use. `Safe` avoids the platform's own
/// screenshot shortcuts; `Native` mirrors them.
#[derive(Clone, Copy, Debug, PartialEq, Eq, Structural)]
pub enum ShortcutMode {
    Safe,
    Native,
}

/// The modifier prefix of a mode.
pub open spec fn modifier_chars(m: ShortcutMode) -> Seq<char> {
    match m {
        ShortcutMode::Safe => "ctrl+shift"@,
        ShortcutMode::Native => "super+shift"@,
    }
}

/// A full key combination: the mode's modifier prefix, a plus sign, and
/// the key.
pub open spec fn binding_chars(m: ShortcutMode, key: Seq<char>) -> Seq<char> {
    modifier_chars(m) + "+"@ + key
}

fn modifier_str(m: &ShortcutMode) -> (r: &'static str)
    ensures
        r@ == modifier_chars(*m),
{
    match m {
        ShortcutMode::Safe => "ctrl+shift",
        ShortcutMode::Native => "super+shift",
    }
}

fn binding(m: &ShortcutMode, key: &str) -> (r: String)
    ensures
        r@ == binding_chars(*m, key@),
{
    let mut s = String::from_str(modifier_str(m));
    s.append("+");
    s.append(key);
    proof {
        assert(s@ =~= binding_chars(*m, key@));
    }
    s
}

/// The five default hotkeys of a mode, each with the action it triggers.
pub fn shortcut_bindings(mode: &ShortcutMode) -> (r: Vec<(String, String)>)
    ensures
        r@.len() == 5,
        r@[0].0@ == binding_chars(*mode, "3"@) && r@[0].1@ == "capture_fullscreen"@,
        r@[1].0@ == binding_chars(*mode, "4"@) && r@[1].1@ == "capture_area"@,
        r@[2].0@ == binding_chars(*mode, "5"@) && r@[2].1@ == "capture_window"@,
        r@[3].0@ == binding_chars(*mode, "7"@) && r@[3].1@ == "record_area"@,
        r@[4].0@ == binding_chars(*mode, "9"@) && r@[4].1@ == "record_fullscreen"@,
{
    let mut r: Vec<(String, String)> = Vec::new();
    r.push((binding(mode, "3"), String::from_str("capture_fullscreen")));
    r.push((binding(mode, "4"), String::from_str("capture_area")));
    r.push((binding(mode, "5"), String::from_str("capture_window")));
    r.push((binding(mode, "7"), String::from_str("record_area")));
    r.push((binding(mode, "9"), String::from_str("record_fullscreen")));
    r
}

} // verus!
