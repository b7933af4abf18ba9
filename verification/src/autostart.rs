//! Login-item registration. Windows writes a value under the HKCU Run key;
//! on Linux a desktop entry goes in the autostart directory, except under
//! Wayland, where a background process cannot own PrintScreen anyway.
use vstd::prelude::*;
use crate::config::{config_dir, path_view, BaseView, PathBase, PathSpec};

verus! {

/// Name of the value under the HKCU Run key.
pub const VALUE_NAME: &'static str = "ZenShot";

/// The per-user Run key.
pub const RUN_KEY: &'static str = "Software\\Microsoft\\Windows\\CurrentVersion\\Run";

/// The desktop entry written to the autostart directory.
pub const DESKTOP_ENTRY: &'static str = "[Desktop Entry]\nType=Application\nName=ZenShot\nComment=Featherlight screenshot capture\nExec=zenshot --warm\nIcon=zenshot\nTerminal=false\nStartupNotify=false\nCategories=Utility;\nX-GNOME-Autostart-enabled=true\n";

pub const NO_AUTOSTART_DIR: &'static str = "Could not determine autostart directory";

/// Whether ZenShot starts with the session (Linux): never under Wayland,
/// otherwise exactly when its desktop entry exists.
pub fn is_enabled(wayland: bool, entry_exists: bool) -> (on: bool)
    ensures
        on == (!wayland && entry_exists),
{
    if wayland {
        return false;
    }
    entry_exists
}

/// What `set_enabled` does to the desktop entry (Linux).
#[derive(Debug, Clone, Copy, PartialEq, Eq, Structural)]
pub enum EntryChange {
    /// Write `DESKTOP_ENTRY`, creating the directory first.
    Write,
    /// Delete the entry if it is there.
    Remove,
}

/// Enabling writes the entry, except under Wayland where any old entry is
/// removed instead; disabling removes it.
pub fn entry_change(on: bool, wayland: bool) -> (change: EntryChange)
    ensures
        change == (if on && !wayland { EntryChange::Write } else { EntryChange::Remove }),
{
    if on && !wayland {
        EntryChange::Write
    } else {
        EntryChange::Remove
    }
}

/// The desktop entry's path: `autostart/zenshot.desktop` inside `config_dir`.
pub fn autostart_path_in(config_dir: std::path::PathBuf) -> (p: PathSpec)
    ensures
        path_view(p) == (BaseView::Dir(config_dir), seq!["autostart"@, "zenshot.desktop"@]),
{
    let mut parts: Vec<String> = Vec::new();
    parts.push(String::from_str("autostart"));
    parts.push(String::from_str("zenshot.desktop"));
    let p = PathSpec { base: PathBase::Dir(config_dir), parts };
    proof {
        assert(p.parts@.map_values(|s: String| s@) =~= seq!["autostart"@, "zenshot.desktop"@]);
    }
    p
}

/// The desktop entry's path, if the system has a configuration directory.
pub fn autostart_path() -> (p: Option<PathSpec>)
    ensures
        p matches Some(spec) ==> path_view(spec).1 == seq!["autostart"@, "zenshot.desktop"@],
{
    match config_dir() {
        Some(dir) => Some(autostart_path_in(dir)),
        None => None,
    }
}

/// The Run value's data: the executable path in double quotes.
pub fn quoted_exe(exe: &str) -> (q: String)
    ensures
        q@ == "\""@ + exe@ + "\""@,
{
    let mut q = String::from_str("\"");
    q.append(exe);
    q.append("\"");
    q
}

/// Whether a registry update is reported as a failure: deleting a value that
/// is not there is not one.
pub fn update_failed(on: bool, status: u32) -> (failed: bool)
    ensures
        failed == (status != 0 && on),
{
    status != 0 && on
}

/// Whether the Run value enables autostart: it exists and holds more than
/// an empty string (`size` is its length in bytes).
pub fn run_value_enabled(status: u32, size: u32) -> (on: bool)
    ensures
        on == (status == 0 && size > 2),
{
    status == 0 && size > 2
}

} // verus!
