//! Decisions of the Windows tray daemon: what each window message asks for,
//! which global hotkeys to register, and the texts the tray shows.
use vstd::prelude::*;
use crate::config::Config;
use crate::hotkey::{display_label, modifier_mask, Hotkey};
use crate::notify::{WM_COPYDATA, WM_RELOAD_CONFIG};
use crate::text::{utf16_decode, utf16_encode, utf16_text};

verus! {

/// Callback message of the tray icon (`WM_APP + 1`).
pub const WM_TRAY: u32 = 0x8000 + 1;
pub const WM_DESTROY: u32 = 0x0002;
pub const WM_COMMAND: u32 = 0x0111;
pub const WM_HOTKEY: u32 = 0x0312;
pub const WM_LBUTTONUP: u32 = 0x0202;
pub const WM_LBUTTONDBLCLK: u32 = 0x0203;
pub const WM_RBUTTONUP: u32 = 0x0205;

/// Hotkey ids the daemon registers.
pub const HOTKEY_CAPTURE: i32 = 1;
pub const HOTKEY_SAVE: i32 = 2;

/// Tray menu command ids.
pub const ID_CAPTURE: usize = 1001;
pub const ID_OPTIONS: usize = 1002;
pub const ID_ABOUT: usize = 1003;
pub const ID_HELP: usize = 1004;
pub const ID_EXIT: usize = 1005;

/// `MOD_NOREPEAT`: a held hotkey fires once.
pub const MOD_NOREPEAT: u32 = 0x4000;

pub const HELP_URL: &'static str = "https://github.com/masudranaxpert/zenshot";

/// What the daemon does in response to one window message.
#[derive(Debug, Clone, Copy, PartialEq, Eq, Structural)]
pub enum DaemonAction {
    ShowMenu,
    Capture,
    SaveFullscreen,
    OpenOptions,
    ShowAbout,
    OpenHelp,
    Exit,
    /// Show the text carried by a `WM_COPYDATA` message in a balloon.
    ShowNotification,
    ReloadConfig,
    /// The window is going away: stop the warm instance and leave the loop.
    Shutdown,
    /// Explorer restarted: put the tray icon back.
    RestoreIcon,
    /// Handled, nothing to do.
    Ignore,
    /// Not ours: hand it to the default window procedure.
    Default,
}

pub open spec fn command_action(id: usize) -> DaemonAction {
    if id == ID_CAPTURE {
        DaemonAction::Capture
    } else if id == ID_OPTIONS {
        DaemonAction::OpenOptions
    } else if id == ID_HELP {
        DaemonAction::OpenHelp
    } else if id == ID_ABOUT {
        DaemonAction::ShowAbout
    } else if id == ID_EXIT {
        DaemonAction::Exit
    } else {
        DaemonAction::Ignore
    }
}

/// What a window message asks of the daemon. `taskbar_created` is the
/// registered `TaskbarCreated` message, or 0 when registration failed.
pub open spec fn message_action(msg: u32, wparam: usize, lparam: isize, taskbar_created: u32) -> DaemonAction {
    if msg == WM_TRAY {
        let event = lparam as u32;
        if event == WM_RBUTTONUP {
            DaemonAction::ShowMenu
        } else if event == WM_LBUTTONUP || event == WM_LBUTTONDBLCLK {
            DaemonAction::Capture
        } else {
            DaemonAction::Ignore
        }
    } else if msg == WM_HOTKEY {
        if wparam as i32 == HOTKEY_CAPTURE {
            DaemonAction::Capture
        } else if wparam as i32 == HOTKEY_SAVE {
            DaemonAction::SaveFullscreen
        } else {
            DaemonAction::Ignore
        }
    } else if msg == WM_COMMAND {
        command_action((wparam % 0x10000) as usize)
    } else if msg == WM_COPYDATA {
        DaemonAction::ShowNotification
    } else if msg == WM_RELOAD_CONFIG {
        DaemonAction::ReloadConfig
    } else if msg == WM_DESTROY {
        DaemonAction::Shutdown
    } else if msg != 0 && msg == taskbar_created {
        DaemonAction::RestoreIcon
    } else {
        DaemonAction::Default
    }
}

fn low_word(v: usize) -> (w: usize)
    ensures
        w == v % 0x10000,
{
    v % 0x10000
}

fn truncate_u32(v: isize) -> (t: u32)
    ensures
        t == v as u32,
{
    v as u32
}

fn truncate_i32(v: usize) -> (t: i32)
    ensures
        t == v as i32,
{
    v as i32
}

/// Dispatches one window message of the daemon's hidden window.
pub fn message_action_of(msg: u32, wparam: usize, lparam: isize, taskbar_created: u32) -> (a: DaemonAction)
    ensures
        a == message_action(msg, wparam, lparam, taskbar_created),
{
    if msg == WM_TRAY {
        let event = truncate_u32(lparam);
        if event == WM_RBUTTONUP {
            DaemonAction::ShowMenu
        } else if event == WM_LBUTTONUP || event == WM_LBUTTONDBLCLK {
            DaemonAction::Capture
        } else {
            DaemonAction::Ignore
        }
    } else if msg == WM_HOTKEY {
        let id = truncate_i32(wparam);
        if id == HOTKEY_CAPTURE {
            DaemonAction::Capture
        } else if id == HOTKEY_SAVE {
            DaemonAction::SaveFullscreen
        } else {
            DaemonAction::Ignore
        }
    } else if msg == WM_COMMAND {
        let id = low_word(wparam);
        if id == ID_CAPTURE {
            DaemonAction::Capture
        } else if id == ID_OPTIONS {
            DaemonAction::OpenOptions
        } else if id == ID_HELP {
            DaemonAction::OpenHelp
        } else if id == ID_ABOUT {
            DaemonAction::ShowAbout
        } else if id == ID_EXIT {
            DaemonAction::Exit
        } else {
            DaemonAction::Ignore
        }
    } else if msg == WM_COPYDATA {
        DaemonAction::ShowNotification
    } else if msg == WM_RELOAD_CONFIG {
        DaemonAction::ReloadConfig
    } else if msg == WM_DESTROY {
        DaemonAction::Shutdown
    } else if msg != 0 && msg == taskbar_created {
        DaemonAction::RestoreIcon
    } else {
        DaemonAction::Default
    }
}

/// Number of UTF-16 units of text in a `WM_COPYDATA` payload of `cb_data`
/// bytes: the sender includes one terminating NUL.
pub open spec fn copydata_units(cb_data: u32) -> int {
    if cb_data / 2 >= 1 { cb_data / 2 - 1 } else { 0 }
}

pub fn copydata_text_units(cb_data: u32) -> (n: usize)
    ensures
        n == copydata_units(cb_data),
{
    let half = (cb_data / 2) as usize;
    if half >= 1 {
        half - 1
    } else {
        0
    }
}

/// The text of a `WM_COPYDATA` notification from its payload (the sender's
/// UTF-16 units followed by a NUL): the units before the last one, decoded.
pub fn copydata_text(payload: &[u16]) -> (text: String)
    ensures
        utf16_decode(payload@.take(if payload@.len() >= 1 { payload@.len() - 1 } else { 0 })) matches Some(t)
            ==> text@ == t,
{
    let n: usize = if payload.len() >= 1 { payload.len() - 1 } else { 0 };
    let mut units: Vec<u16> = Vec::new();
    let mut i: usize = 0;
    while i < n
        invariant
            n <= payload@.len(),
            i <= n,
            units@ == payload@.take(i as int),
        decreases n - i,
    {
        units.push(payload[i]);
        proof {
            assert(payload@.take(i + 1) =~= payload@.take(i as int).push(payload@[i as int]));
        }
        i = i + 1;
    }
    utf16_text(units.as_slice())
}

/// What a notification sender puts in a `WM_COPYDATA` payload (the text's
/// UTF-16 units and a NUL, `cb_data` bytes) comes out as that text, and the
/// daemon reads exactly the text's units.
pub proof fn lemma_copydata_roundtrip(body: Seq<char>)
    requires
        2 * (utf16_encode(body).len() + 1) <= u32::MAX,
    ensures
        ({
            let payload = utf16_encode(body).push(0u16);
            let cb_data = (2 * payload.len()) as u32;
            &&& copydata_units(cb_data) == utf16_encode(body).len()
            &&& utf16_decode(payload.take(copydata_units(cb_data))) == Some(body)
        }),
{
    let payload = utf16_encode(body).push(0u16);
    crate::text::lemma_utf16_roundtrip(body);
    assert(payload.take(utf16_encode(body).len() as int) =~= utf16_encode(body));
}

/// Tooltip of the tray icon.
pub open spec fn tray_tip_text(capture_enabled: bool, capture: Hotkey) -> Seq<char> {
    if capture_enabled {
        "ZenShot \u{2014} press "@ + display_label(capture) + " to take a screenshot"@
    } else {
        "ZenShot"@
    }
}

pub fn tray_tip(config: &Config) -> (tip: String)
    ensures
        tip@ == tray_tip_text(config.hotkey_capture_enabled, config.hotkey_capture),
{
    if config.hotkey_capture_enabled {
        let mut tip = String::from_str("ZenShot \u{2014} press ");
        let label = config.hotkey_capture.display();
        tip.append(label.as_str());
        tip.append(" to take a screenshot");
        tip
    } else {
        String::from_str("ZenShot")
    }
}

/// The hotkeys the daemon registers: the capture hotkey and the instant
/// full-screen save hotkey, each only when enabled.
pub fn hotkeys_to_register(config: &Config) -> (plan: (Option<Hotkey>, Option<Hotkey>))
    ensures
        plan.0 == (if config.hotkey_capture_enabled { Some(config.hotkey_capture) } else { None }),
        plan.1 == (if config.hotkey_save_fullscreen_enabled { Some(config.hotkey_save_fullscreen) } else { None }),
{
    let capture = if config.hotkey_capture_enabled { Some(config.hotkey_capture) } else { None };
    let save = if config.hotkey_save_fullscreen_enabled { Some(config.hotkey_save_fullscreen) } else { None };
    (capture, save)
}

/// Modifier flags a hotkey is registered with: its own modifiers plus
/// `MOD_NOREPEAT`.
pub fn registration_modifiers(h: &Hotkey) -> (m: u32)
    ensures
        m == modifier_mask(*h) + MOD_NOREPEAT,
{
    h.native_modifiers() + MOD_NOREPEAT
}

/// The user is warned when a hotkey that was meant to be registered could
/// not be.
pub fn registration_failed(plan: (Option<Hotkey>, Option<Hotkey>), capture_ok: bool, save_ok: bool) -> (failed: bool)
    ensures
        failed == ((plan.0 is Some && !capture_ok) || (plan.1 is Some && !save_ok)),
{
    (plan.0.is_some() && !capture_ok) || (plan.1.is_some() && !save_ok)
}

pub const REGISTRATION_FAILED_TITLE: &'static str = "Failed to register a hotkey";
pub const REGISTRATION_FAILED_BODY: &'static str = "Another application is using it. Open Options to pick a different shortcut.";

/// Balloon text after an instant full-screen save.
pub fn fullscreen_saved(path: &str) -> (body: String)
    ensures
        body@ == "Screenshot is saved to "@ + path@,
{
    let mut body = String::from_str("Screenshot is saved to ");
    body.append(path);
    body
}

/// Text of the About box.
pub fn about_text(version: &str) -> (body: String)
    ensures
        body@ == "ZenShot "@ + version@ + "\nFeatherlight screen capture.\n\n"@ + HELP_URL@,
{
    let mut body = String::from_str("ZenShot ");
    body.append(version);
    body.append("\nFeatherlight screen capture.\n\n");
    body.append(HELP_URL);
    body
}

/// Command line that starts this program again with one argument, the
/// executable path quoted.
pub fn self_command_line(exe: &str, arg: &str) -> (line: String)
    ensures
        line@ == "\""@ + exe@ + "\" "@ + arg@,
{
    let mut line = String::from_str("\"");
    line.append(exe);
    line.append("\" ");
    line.append(arg);
    line
}

} // verus!
