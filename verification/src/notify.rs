//! What the overlay tells the tray daemon (Windows) or the desktop's
//! notification service (Linux) after a copy or a save.
use vstd::prelude::*;
use crate::text::{encode_utf16, utf16_decode, utf16_encode};

verus! {

/// Window class of the tray daemon's hidden window.
pub const DAEMON_CLASS: &'static str = "ZenShotDaemon";

/// Message the Options window posts to the daemon after saving settings
/// (`WM_APP + 2`).
pub const WM_RELOAD_CONFIG: u32 = 0x8000 + 2;

/// `WM_COPYDATA`, which carries a notification text to the daemon.
pub const WM_COPYDATA: u32 = 0x004A;

pub open spec fn copied_text() -> Seq<char> {
    "Your screenshot is copied to clipboard"@
}

pub open spec fn saved_text(path: Seq<char>) -> Seq<char> {
    "Screenshot is saved to "@ + path + ". Click to open the folder."@
}

/// Notification body after a copy to the clipboard.
pub fn copied() -> (body: String)
    ensures
        body@ == copied_text(),
{
    String::from_str("Your screenshot is copied to clipboard")
}

/// Notification body after a save; `path` is the file as displayed.
pub fn saved(path: &str) -> (body: String)
    ensures
        body@ == saved_text(path@),
{
    let mut body = String::from_str("Screenshot is saved to ");
    body.append(path);
    body.append(". Click to open the folder.");
    body
}

/// NUL-terminated UTF-16 form of `s`, as Win32 wide-string APIs take it.
pub fn wide(s: &str) -> (w: Vec<u16>)
    ensures
        w@ == utf16_encode(s@).push(0u16),
{
    let mut w = encode_utf16(s);
    w.push(0);
    w
}

/// A wide string ends in its terminating NUL, and the units before it
/// decode back to the text it was made from.
pub proof fn lemma_wide_decodes(s: Seq<char>)
    ensures
        utf16_encode(s).push(0u16).last() == 0u16,
        utf16_encode(s).push(0u16).len() == utf16_encode(s).len() + 1,
        utf16_decode(utf16_encode(s).push(0u16).drop_last()) == Some(s),
{
    crate::text::lemma_utf16_roundtrip(s);
    assert(utf16_encode(s).push(0u16).drop_last() =~= utf16_encode(s));
}

} // verus!
