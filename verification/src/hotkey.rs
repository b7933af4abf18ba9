//! Global keyboard shortcuts and their human-readable names.
use vstd::prelude::*;
use crate::text::{decimal, digit_char, join_parts, join_with};

verus! {

/// A global keyboard shortcut. `vk` is a Windows virtual-key code; on Linux
/// the same numeric value is kept in config so a Windows install can be copied
/// over, but Linux never registers it (the desktop environment owns PrintScreen).
#[derive(Debug, Clone, Copy, PartialEq, Eq, Structural)]
pub struct Hotkey {
    pub ctrl: bool,
    pub alt: bool,
    pub shift: bool,
    pub win: bool,
    pub vk: u32,
}

/// Virtual-key code of the Print Screen key.
pub const VK_SNAPSHOT: u32 = 0x2C;

/// Virtual-key code of the S key.
pub const VK_S: u32 = 0x53;

/// Name shown for a virtual-key code; codes outside the table read "Key".
pub open spec fn vk_label(vk: u32) -> Seq<char> {
    if vk == 0x08 { "Backspace"@ }
    else if vk == 0x09 { "Tab"@ }
    else if vk == 0x0D { "Enter"@ }
    else if vk == 0x1B { "Esc"@ }
    else if vk == 0x20 { "Space"@ }
    else if vk == 0x21 { "Page Up"@ }
    else if vk == 0x22 { "Page Down"@ }
    else if vk == 0x23 { "End"@ }
    else if vk == 0x24 { "Home"@ }
    else if vk == 0x25 { "Left"@ }
    else if vk == 0x26 { "Up"@ }
    else if vk == 0x27 { "Right"@ }
    else if vk == 0x28 { "Down"@ }
    else if vk == 0x2C { "Print Screen"@ }
    else if vk == 0x2D { "Insert"@ }
    else if vk == 0x2E { "Delete"@ }
    else if vk == 0x30 { "0"@ }
    else if vk == 0x31 { "1"@ }
    else if vk == 0x32 { "2"@ }
    else if vk == 0x33 { "3"@ }
    else if vk == 0x34 { "4"@ }
    else if vk == 0x35 { "5"@ }
    else if vk == 0x36 { "6"@ }
    else if vk == 0x37 { "7"@ }
    else if vk == 0x38 { "8"@ }
    else if vk == 0x39 { "9"@ }
    else if vk == 0x41 { "A"@ }
    else if vk == 0x42 { "B"@ }
    else if vk == 0x43 { "C"@ }
    else if vk == 0x44 { "D"@ }
    else if vk == 0x45 { "E"@ }
    else if vk == 0x46 { "F"@ }
    else if vk == 0x47 { "G"@ }
    else if vk == 0x48 { "H"@ }
    else if vk == 0x49 { "I"@ }
    else if vk == 0x4A { "J"@ }
    else if vk == 0x4B { "K"@ }
    else if vk == 0x4C { "L"@ }
    else if vk == 0x4D { "M"@ }
    else if vk == 0x4E { "N"@ }
    else if vk == 0x4F { "O"@ }
    else if vk == 0x50 { "P"@ }
    else if vk == 0x51 { "Q"@ }
    else if vk == 0x52 { "R"@ }
    else if vk == 0x53 { "S"@ }
    else if vk == 0x54 { "T"@ }
    else if vk == 0x55 { "U"@ }
    else if vk == 0x56 { "V"@ }
    else if vk == 0x57 { "W"@ }
    else if vk == 0x58 { "X"@ }
    else if vk == 0x59 { "Y"@ }
    else if vk == 0x5A { "Z"@ }
    else if vk == 0x70 { "F1"@ }
    else if vk == 0x71 { "F2"@ }
    else if vk == 0x72 { "F3"@ }
    else if vk == 0x73 { "F4"@ }
    else if vk == 0x74 { "F5"@ }
    else if vk == 0x75 { "F6"@ }
    else if vk == 0x76 { "F7"@ }
    else if vk == 0x77 { "F8"@ }
    else if vk == 0x78 { "F9"@ }
    else if vk == 0x79 { "F10"@ }
    else if vk == 0x7A { "F11"@ }
    else if vk == 0x7B { "F12"@ }
    else { "Key"@ }
}

/// Codes that have a name of their own (everything else reads "Key").
pub open spec fn vk_is_named(vk: u32) -> bool {
    ||| vk == 0x08 || vk == 0x09 || vk == 0x0D || vk == 0x1B || vk == 0x20
    ||| 0x21 <= vk <= 0x28
    ||| vk == 0x2C || vk == 0x2D || vk == 0x2E
    ||| 0x30 <= vk <= 0x39
    ||| 0x41 <= vk <= 0x5A
    ||| 0x70 <= vk <= 0x7B
}

/// The words of a hotkey's label: its modifiers in Lightshot order, then the key.
pub open spec fn display_parts(h: Hotkey) -> Seq<Seq<char>> {
    (if h.ctrl { seq!["Ctrl"@] } else { Seq::empty() })
    + (if h.alt { seq!["Alt"@] } else { Seq::empty() })
    + (if h.shift { seq!["Shift"@] } else { Seq::empty() })
    + (if h.win { seq!["Win"@] } else { Seq::empty() })
    + seq![vk_label(h.vk)]
}

/// The full label, e.g. "Ctrl + Shift + S".
pub open spec fn display_label(h: Hotkey) -> Seq<char> {
    join_parts(display_parts(h), " + "@)
}

/// Win32 `RegisterHotKey` modifier bitmask (without `MOD_NOREPEAT`).
pub open spec fn modifier_mask(h: Hotkey) -> int {
    (if h.alt { 1int } else { 0 }) + (if h.ctrl { 2int } else { 0 })
    + (if h.shift { 4int } else { 0 }) + (if h.win { 8int } else { 0 })
}

impl Hotkey {
    pub open spec fn print_screen_spec() -> Hotkey {
        Hotkey { ctrl: false, alt: false, shift: false, win: false, vk: VK_SNAPSHOT }
    }

    /// Plain Print Screen, the default capture hotkey.
    pub fn print_screen_default() -> (h: Hotkey)
        ensures
            h == Hotkey::print_screen_spec(),
    {
        Hotkey { ctrl: false, alt: false, shift: false, win: false, vk: VK_SNAPSHOT }
    }

    pub fn ctrl_shift_s() -> (h: Hotkey)
        ensures
            h == (Hotkey { ctrl: true, alt: false, shift: true, win: false, vk: VK_S }),
    {
        Hotkey { ctrl: true, alt: false, shift: true, win: false, vk: VK_S }
    }

    pub fn ctrl_alt_s() -> (h: Hotkey)
        ensures
            h == (Hotkey { ctrl: true, alt: true, shift: false, win: false, vk: VK_S }),
    {
        Hotkey { ctrl: true, alt: true, shift: false, win: false, vk: VK_S }
    }

    /// Human-readable label: modifiers first (Ctrl, Alt, Shift, Win), then the
    /// key name, joined by " + ".
    pub fn display(&self) -> (s: String)
        ensures
            s@ == display_label(*self),
    {
        let mut parts: Vec<&str> = Vec::new();
        if self.ctrl {
            parts.push("Ctrl");
        }
        if self.alt {
            parts.push("Alt");
        }
        if self.shift {
            parts.push("Shift");
        }
        if self.win {
            parts.push("Win");
        }
        parts.push(vk_name(self.vk));
        proof {
            assert(parts@.map_values(|p: &str| p@) =~= display_parts(*self));
        }
        join_with(&parts, " + ")
    }

    /// Win32 `RegisterHotKey` modifier bitmask (without `MOD_NOREPEAT`):
    /// Alt 0x1, Ctrl 0x2, Shift 0x4, Win 0x8.
    pub fn native_modifiers(&self) -> (m: u32)
        ensures
            m == modifier_mask(*self),
            m < 16,
    {
        let mut m: u32 = 0;
        if self.alt {
            m = m + 1;
        }
        if self.ctrl {
            m = m + 2;
        }
        if self.shift {
            m = m + 4;
        }
        if self.win {
            m = m + 8;
        }
        m
    }
}

/// The keys a shortcut can be recorded from, named as the GUI toolkit names
/// them; every other key is `Other`.
#[derive(Debug, Clone, Copy, PartialEq, Eq, Structural)]
pub enum Key {
    Escape,
    Tab,
    Enter,
    Space,
    Backspace,
    Insert,
    Delete,
    Home,
    End,
    PageUp,
    PageDown,
    ArrowLeft,
    ArrowUp,
    ArrowRight,
    ArrowDown,
    A,
    B,
    C,
    D,
    E,
    F,
    G,
    H,
    I,
    J,
    K,
    L,
    M,
    N,
    O,
    P,
    Q,
    R,
    S,
    T,
    U,
    V,
    W,
    X,
    Y,
    Z,
    Num0,
    Num1,
    Num2,
    Num3,
    Num4,
    Num5,
    Num6,
    Num7,
    Num8,
    Num9,
    F1,
    F2,
    F3,
    F4,
    F5,
    F6,
    F7,
    F8,
    F9,
    F10,
    F11,
    F12,
    Other,
}

/// Modifier state while a key is pressed. `command` is the platform's main
/// shortcut modifier and `mac_cmd` the Apple command key.
#[derive(Debug, Clone, Copy, PartialEq, Eq, Structural)]
pub struct Modifiers {
    pub alt: bool,
    pub ctrl: bool,
    pub shift: bool,
    pub mac_cmd: bool,
    pub command: bool,
}

/// Virtual-key code recorded for a key; `None` for keys that cannot be bound
/// (Escape cancels recording, and unlisted keys are ignored).
pub open spec fn key_vk(k: Key) -> Option<u32> {
    match k {
        Key::Escape => None,
        Key::Tab => Some(0x09u32),
        Key::Enter => Some(0x0Du32),
        Key::Space => Some(0x20u32),
        Key::Backspace => Some(0x08u32),
        Key::Insert => Some(0x2Du32),
        Key::Delete => Some(0x2Eu32),
        Key::Home => Some(0x24u32),
        Key::End => Some(0x23u32),
        Key::PageUp => Some(0x21u32),
        Key::PageDown => Some(0x22u32),
        Key::ArrowLeft => Some(0x25u32),
        Key::ArrowUp => Some(0x26u32),
        Key::ArrowRight => Some(0x27u32),
        Key::ArrowDown => Some(0x28u32),
        Key::A => Some(0x41u32),
        Key::B => Some(0x42u32),
        Key::C => Some(0x43u32),
        Key::D => Some(0x44u32),
        Key::E => Some(0x45u32),
        Key::F => Some(0x46u32),
        Key::G => Some(0x47u32),
        Key::H => Some(0x48u32),
        Key::I => Some(0x49u32),
        Key::J => Some(0x4Au32),
        Key::K => Some(0x4Bu32),
        Key::L => Some(0x4Cu32),
        Key::M => Some(0x4Du32),
        Key::N => Some(0x4Eu32),
        Key::O => Some(0x4Fu32),
        Key::P => Some(0x50u32),
        Key::Q => Some(0x51u32),
        Key::R => Some(0x52u32),
        Key::S => Some(0x53u32),
        Key::T => Some(0x54u32),
        Key::U => Some(0x55u32),
        Key::V => Some(0x56u32),
        Key::W => Some(0x57u32),
        Key::X => Some(0x58u32),
        Key::Y => Some(0x59u32),
        Key::Z => Some(0x5Au32),
        Key::Num0 => Some(0x30u32),
        Key::Num1 => Some(0x31u32),
        Key::Num2 => Some(0x32u32),
        Key::Num3 => Some(0x33u32),
        Key::Num4 => Some(0x34u32),
        Key::Num5 => Some(0x35u32),
        Key::Num6 => Some(0x36u32),
        Key::Num7 => Some(0x37u32),
        Key::Num8 => Some(0x38u32),
        Key::Num9 => Some(0x39u32),
        Key::F1 => Some(0x70u32),
        Key::F2 => Some(0x71u32),
        Key::F3 => Some(0x72u32),
        Key::F4 => Some(0x73u32),
        Key::F5 => Some(0x74u32),
        Key::F6 => Some(0x75u32),
        Key::F7 => Some(0x76u32),
        Key::F8 => Some(0x77u32),
        Key::F9 => Some(0x78u32),
        Key::F10 => Some(0x79u32),
        Key::F11 => Some(0x7Au32),
        Key::F12 => Some(0x7Bu32),
        Key::Other => None,
    }
}

/// The name a bound key is shown with.
pub open spec fn key_label(k: Key) -> Seq<char> {
    match k {
        Key::Tab => "Tab"@,
        Key::Enter => "Enter"@,
        Key::Space => "Space"@,
        Key::Backspace => "Backspace"@,
        Key::Insert => "Insert"@,
        Key::Delete => "Delete"@,
        Key::Home => "Home"@,
        Key::End => "End"@,
        Key::PageUp => "Page Up"@,
        Key::PageDown => "Page Down"@,
        Key::ArrowLeft => "Left"@,
        Key::ArrowUp => "Up"@,
        Key::ArrowRight => "Right"@,
        Key::ArrowDown => "Down"@,
        Key::A => "A"@,
        Key::B => "B"@,
        Key::C => "C"@,
        Key::D => "D"@,
        Key::E => "E"@,
        Key::F => "F"@,
        Key::G => "G"@,
        Key::H => "H"@,
        Key::I => "I"@,
        Key::J => "J"@,
        Key::K => "K"@,
        Key::L => "L"@,
        Key::M => "M"@,
        Key::N => "N"@,
        Key::O => "O"@,
        Key::P => "P"@,
        Key::Q => "Q"@,
        Key::R => "R"@,
        Key::S => "S"@,
        Key::T => "T"@,
        Key::U => "U"@,
        Key::V => "V"@,
        Key::W => "W"@,
        Key::X => "X"@,
        Key::Y => "Y"@,
        Key::Z => "Z"@,
        Key::Num0 => "0"@,
        Key::Num1 => "1"@,
        Key::Num2 => "2"@,
        Key::Num3 => "3"@,
        Key::Num4 => "4"@,
        Key::Num5 => "5"@,
        Key::Num6 => "6"@,
        Key::Num7 => "7"@,
        Key::Num8 => "8"@,
        Key::Num9 => "9"@,
        Key::F1 => "F1"@,
        Key::F2 => "F2"@,
        Key::F3 => "F3"@,
        Key::F4 => "F4"@,
        Key::F5 => "F5"@,
        Key::F6 => "F6"@,
        Key::F7 => "F7"@,
        Key::F8 => "F8"@,
        Key::F9 => "F9"@,
        Key::F10 => "F10"@,
        Key::F11 => "F11"@,
        Key::F12 => "F12"@,
        _ => "Key"@,
    }
}

/// Maps a key + modifiers onto a hotkey. Returns `None` for keys that should
/// not be bound (Escape while cancelling, keys outside the table).
pub fn from_egui(key: Key, modifiers: Modifiers) -> (h: Option<Hotkey>)
    ensures
        h == (match key_vk(key) {
            Some(vk) => Some(Hotkey {
                ctrl: modifiers.ctrl || modifiers.command,
                alt: modifiers.alt,
                shift: modifiers.shift,
                win: modifiers.mac_cmd,
                vk,
            }),
            None => None,
        }),
{
    let vk: u32 = match key {
        Key::Escape => return None,
        Key::Tab => 0x09,
        Key::Enter => 0x0D,
        Key::Space => 0x20,
        Key::Backspace => 0x08,
        Key::Insert => 0x2D,
        Key::Delete => 0x2E,
        Key::Home => 0x24,
        Key::End => 0x23,
        Key::PageUp => 0x21,
        Key::PageDown => 0x22,
        Key::ArrowLeft => 0x25,
        Key::ArrowUp => 0x26,
        Key::ArrowRight => 0x27,
        Key::ArrowDown => 0x28,
        Key::A => 0x41,
        Key::B => 0x42,
        Key::C => 0x43,
        Key::D => 0x44,
        Key::E => 0x45,
        Key::F => 0x46,
        Key::G => 0x47,
        Key::H => 0x48,
        Key::I => 0x49,
        Key::J => 0x4A,
        Key::K => 0x4B,
        Key::L => 0x4C,
        Key::M => 0x4D,
        Key::N => 0x4E,
        Key::O => 0x4F,
        Key::P => 0x50,
        Key::Q => 0x51,
        Key::R => 0x52,
        Key::S => 0x53,
        Key::T => 0x54,
        Key::U => 0x55,
        Key::V => 0x56,
        Key::W => 0x57,
        Key::X => 0x58,
        Key::Y => 0x59,
        Key::Z => 0x5A,
        Key::Num0 => 0x30,
        Key::Num1 => 0x31,
        Key::Num2 => 0x32,
        Key::Num3 => 0x33,
        Key::Num4 => 0x34,
        Key::Num5 => 0x35,
        Key::Num6 => 0x36,
        Key::Num7 => 0x37,
        Key::Num8 => 0x38,
        Key::Num9 => 0x39,
        Key::F1 => 0x70,
        Key::F2 => 0x71,
        Key::F3 => 0x72,
        Key::F4 => 0x73,
        Key::F5 => 0x74,
        Key::F6 => 0x75,
        Key::F7 => 0x76,
        Key::F8 => 0x77,
        Key::F9 => 0x78,
        Key::F10 => 0x79,
        Key::F11 => 0x7A,
        Key::F12 => 0x7B,
        Key::Other => return None,
    };
    Some(Hotkey {
        ctrl: modifiers.ctrl || modifiers.command,
        alt: modifiers.alt,
        shift: modifiers.shift,
        win: modifiers.mac_cmd,
        vk,
    })
}

/// A recorded shortcut always shows the name of the key that was pressed:
/// every key that can be bound has a named virtual-key code whose label is
/// that key's own name, and the modifiers carry over as pressed.
pub proof fn lemma_bound_key_keeps_its_name(key: Key, modifiers: Modifiers)
    requires
        key_vk(key) is Some,
    ensures
        vk_is_named(key_vk(key)->0),
        vk_label(key_vk(key)->0) == key_label(key),
        display_label(Hotkey {
            ctrl: false, alt: false, shift: false, win: false, vk: key_vk(key)->0,
        }) == key_label(key),
{
    let h = Hotkey { ctrl: false, alt: false, shift: false, win: false, vk: key_vk(key)->0 };
    assert(display_parts(h) =~= seq![vk_label(h.vk)]);
}

/// Name of a virtual-key code.
pub fn vk_name(vk: u32) -> (s: &'static str)
    ensures
        s@ == vk_label(vk),
{
    match vk {
        0x08 => "Backspace",
        0x09 => "Tab",
        0x0D => "Enter",
        0x1B => "Esc",
        0x20 => "Space",
        0x21 => "Page Up",
        0x22 => "Page Down",
        0x23 => "End",
        0x24 => "Home",
        0x25 => "Left",
        0x26 => "Up",
        0x27 => "Right",
        0x28 => "Down",
        0x2C => "Print Screen",
        0x2D => "Insert",
        0x2E => "Delete",
        0x30 => "0",
        0x31 => "1",
        0x32 => "2",
        0x33 => "3",
        0x34 => "4",
        0x35 => "5",
        0x36 => "6",
        0x37 => "7",
        0x38 => "8",
        0x39 => "9",
        0x41 => "A",
        0x42 => "B",
        0x43 => "C",
        0x44 => "D",
        0x45 => "E",
        0x46 => "F",
        0x47 => "G",
        0x48 => "H",
        0x49 => "I",
        0x4A => "J",
        0x4B => "K",
        0x4C => "L",
        0x4D => "M",
        0x4E => "N",
        0x4F => "O",
        0x50 => "P",
        0x51 => "Q",
        0x52 => "R",
        0x53 => "S",
        0x54 => "T",
        0x55 => "U",
        0x56 => "V",
        0x57 => "W",
        0x58 => "X",
        0x59 => "Y",
        0x5A => "Z",
        0x70 => "F1",
        0x71 => "F2",
        0x72 => "F3",
        0x73 => "F4",
        0x74 => "F5",
        0x75 => "F6",
        0x76 => "F7",
        0x77 => "F8",
        0x78 => "F9",
        0x79 => "F10",
        0x7A => "F11",
        0x7B => "F12",
        _ => "Key",
    }
}

/// The name a letter or digit key's virtual-key code is shown with is the
/// character with that code: Windows numbers `0`-`9` and `A`-`Z` by their
/// ASCII codes.
pub proof fn lemma_vk_label_is_the_character(vk: u32)
    requires
        (0x30 <= vk <= 0x39) || (0x41 <= vk <= 0x5A),
    ensures
        vk_label(vk) == seq![vk as char],
{
    if vk == 0x30 {
        reveal_strlit("0");
        vstd::utf8::char_u32_cast('0', 0x30u32);
        assert(vk_label(vk) =~= seq![vk as char]);
    } else if vk == 0x31 {
        reveal_strlit("1");
        vstd::utf8::char_u32_cast('1', 0x31u32);
        assert(vk_label(vk) =~= seq![vk as char]);
    } else if vk == 0x32 {
        reveal_strlit("2");
        vstd::utf8::char_u32_cast('2', 0x32u32);
        assert(vk_label(vk) =~= seq![vk as char]);
    } else if vk == 0x33 {
        reveal_strlit("3");
        vstd::utf8::char_u32_cast('3', 0x33u32);
        assert(vk_label(vk) =~= seq![vk as char]);
    } else if vk == 0x34 {
        reveal_strlit("4");
        vstd::utf8::char_u32_cast('4', 0x34u32);
        assert(vk_label(vk) =~= seq![vk as char]);
    } else if vk == 0x35 {
        reveal_strlit("5");
        vstd::utf8::char_u32_cast('5', 0x35u32);
        assert(vk_label(vk) =~= seq![vk as char]);
    } else if vk == 0x36 {
        reveal_strlit("6");
        vstd::utf8::char_u32_cast('6', 0x36u32);
        assert(vk_label(vk) =~= seq![vk as char]);
    } else if vk == 0x37 {
        reveal_strlit("7");
        vstd::utf8::char_u32_cast('7', 0x37u32);
        assert(vk_label(vk) =~= seq![vk as char]);
    } else if vk == 0x38 {
        reveal_strlit("8");
        vstd::utf8::char_u32_cast('8', 0x38u32);
        assert(vk_label(vk) =~= seq![vk as char]);
    } else if vk == 0x39 {
        reveal_strlit("9");
        vstd::utf8::char_u32_cast('9', 0x39u32);
        assert(vk_label(vk) =~= seq![vk as char]);
    } else if vk == 0x41 {
        reveal_strlit("A");
        vstd::utf8::char_u32_cast('A', 0x41u32);
        assert(vk_label(vk) =~= seq![vk as char]);
    } else if vk == 0x42 {
        reveal_strlit("B");
        vstd::utf8::char_u32_cast('B', 0x42u32);
        assert(vk_label(vk) =~= seq![vk as char]);
    } else if vk == 0x43 {
        reveal_strlit("C");
        vstd::utf8::char_u32_cast('C', 0x43u32);
        assert(vk_label(vk) =~= seq![vk as char]);
    } else if vk == 0x44 {
        reveal_strlit("D");
        vstd::utf8::char_u32_cast('D', 0x44u32);
        assert(vk_label(vk) =~= seq![vk as char]);
    } else if vk == 0x45 {
        reveal_strlit("E");
        vstd::utf8::char_u32_cast('E', 0x45u32);
        assert(vk_label(vk) =~= seq![vk as char]);
    } else if vk == 0x46 {
        reveal_strlit("F");
        vstd::utf8::char_u32_cast('F', 0x46u32);
        assert(vk_label(vk) =~= seq![vk as char]);
    } else if vk == 0x47 {
        reveal_strlit("G");
        vstd::utf8::char_u32_cast('G', 0x47u32);
        assert(vk_label(vk) =~= seq![vk as char]);
    } else if vk == 0x48 {
        reveal_strlit("H");
        vstd::utf8::char_u32_cast('H', 0x48u32);
        assert(vk_label(vk) =~= seq![vk as char]);
    } else if vk == 0x49 {
        reveal_strlit("I");
        vstd::utf8::char_u32_cast('I', 0x49u32);
        assert(vk_label(vk) =~= seq![vk as char]);
    } else if vk == 0x4a {
        reveal_strlit("J");
        vstd::utf8::char_u32_cast('J', 0x4au32);
        assert(vk_label(vk) =~= seq![vk as char]);
    } else if vk == 0x4b {
        reveal_strlit("K");
        vstd::utf8::char_u32_cast('K', 0x4bu32);
        assert(vk_label(vk) =~= seq![vk as char]);
    } else if vk == 0x4c {
        reveal_strlit("L");
        vstd::utf8::char_u32_cast('L', 0x4cu32);
        assert(vk_label(vk) =~= seq![vk as char]);
    } else if vk == 0x4d {
        reveal_strlit("M");
        vstd::utf8::char_u32_cast('M', 0x4du32);
        assert(vk_label(vk) =~= seq![vk as char]);
    } else if vk == 0x4e {
        reveal_strlit("N");
        vstd::utf8::char_u32_cast('N', 0x4eu32);
        assert(vk_label(vk) =~= seq![vk as char]);
    } else if vk == 0x4f {
        reveal_strlit("O");
        vstd::utf8::char_u32_cast('O', 0x4fu32);
        assert(vk_label(vk) =~= seq![vk as char]);
    } else if vk == 0x50 {
        reveal_strlit("P");
        vstd::utf8::char_u32_cast('P', 0x50u32);
        assert(vk_label(vk) =~= seq![vk as char]);
    } else if vk == 0x51 {
        reveal_strlit("Q");
        vstd::utf8::char_u32_cast('Q', 0x51u32);
        assert(vk_label(vk) =~= seq![vk as char]);
    } else if vk == 0x52 {
        reveal_strlit("R");
        vstd::utf8::char_u32_cast('R', 0x52u32);
        assert(vk_label(vk) =~= seq![vk as char]);
    } else if vk == 0x53 {
        reveal_strlit("S");
        vstd::utf8::char_u32_cast('S', 0x53u32);
        assert(vk_label(vk) =~= seq![vk as char]);
    } else if vk == 0x54 {
        reveal_strlit("T");
        vstd::utf8::char_u32_cast('T', 0x54u32);
        assert(vk_label(vk) =~= seq![vk as char]);
    } else if vk == 0x55 {
        reveal_strlit("U");
        vstd::utf8::char_u32_cast('U', 0x55u32);
        assert(vk_label(vk) =~= seq![vk as char]);
    } else if vk == 0x56 {
        reveal_strlit("V");
        vstd::utf8::char_u32_cast('V', 0x56u32);
        assert(vk_label(vk) =~= seq![vk as char]);
    } else if vk == 0x57 {
        reveal_strlit("W");
        vstd::utf8::char_u32_cast('W', 0x57u32);
        assert(vk_label(vk) =~= seq![vk as char]);
    } else if vk == 0x58 {
        reveal_strlit("X");
        vstd::utf8::char_u32_cast('X', 0x58u32);
        assert(vk_label(vk) =~= seq![vk as char]);
    } else if vk == 0x59 {
        reveal_strlit("Y");
        vstd::utf8::char_u32_cast('Y', 0x59u32);
        assert(vk_label(vk) =~= seq![vk as char]);
    } else if vk == 0x5a {
        reveal_strlit("Z");
        vstd::utf8::char_u32_cast('Z', 0x5au32);
        assert(vk_label(vk) =~= seq![vk as char]);
    }
}

/// Function keys are shown as `F` and their number: code `0x6F + n` is Fn.
pub proof fn lemma_vk_label_of_function_keys(n: nat)
    requires
        1 <= n <= 12,
    ensures
        vk_label((0x6F + n) as u32) == seq!['F'] + decimal(n),
{
    reveal_with_fuel(decimal, 2);
    if n == 1 {
        reveal_strlit("F1");
        assert(vk_label((0x6F + n) as u32) =~= seq!['F'] + decimal(n));
    } else if n == 2 {
        reveal_strlit("F2");
        assert(vk_label((0x6F + n) as u32) =~= seq!['F'] + decimal(n));
    } else if n == 3 {
        reveal_strlit("F3");
        assert(vk_label((0x6F + n) as u32) =~= seq!['F'] + decimal(n));
    } else if n == 4 {
        reveal_strlit("F4");
        assert(vk_label((0x6F + n) as u32) =~= seq!['F'] + decimal(n));
    } else if n == 5 {
        reveal_strlit("F5");
        assert(vk_label((0x6F + n) as u32) =~= seq!['F'] + decimal(n));
    } else if n == 6 {
        reveal_strlit("F6");
        assert(vk_label((0x6F + n) as u32) =~= seq!['F'] + decimal(n));
    } else if n == 7 {
        reveal_strlit("F7");
        assert(vk_label((0x6F + n) as u32) =~= seq!['F'] + decimal(n));
    } else if n == 8 {
        reveal_strlit("F8");
        assert(vk_label((0x6F + n) as u32) =~= seq!['F'] + decimal(n));
    } else if n == 9 {
        reveal_strlit("F9");
        assert(vk_label((0x6F + n) as u32) =~= seq!['F'] + decimal(n));
    } else if n == 10 {
        reveal_strlit("F10");
        assert(vk_label((0x6F + n) as u32) =~= seq!['F'] + decimal(n));
    } else if n == 11 {
        reveal_strlit("F11");
        assert(vk_label((0x6F + n) as u32) =~= seq!['F'] + decimal(n));
    } else if n == 12 {
        reveal_strlit("F12");
        assert(vk_label((0x6F + n) as u32) =~= seq!['F'] + decimal(n));
    }
}

/// Each key records the Windows virtual-key code of the key it is: a key
/// named by one letter or digit records that character's code, and a
/// function key `Fn` records `0x6F + n`.
pub proof fn lemma_key_codes(key: Key)
    ensures
        key_label(key).len() == 1 && (('0' <= key_label(key)[0] <= '9') || ('A' <= key_label(key)[0] <= 'Z'))
            ==> key_vk(key) == Some(key_label(key)[0] as u32),
        forall|n: nat| 1 <= n <= 12 && key_label(key) == seq!['F'] + decimal(n) ==> key_vk(key) == Some((0x6F + n) as u32),
{
    match key {
        Key::Escape => {
            reveal_strlit("Key");
            assert forall|m: nat| 1 <= m <= 12 && key_label(key) == seq!['F'] + decimal(m) implies key_vk(key) == Some((0x6F + m) as u32) by {
                lemma_decimal_small(m);
                assert((seq!['F'] + decimal(m)).len() == decimal(m).len() + 1);
                assert((seq!['F'] + decimal(m))[0] == 'F');
            }
        },
        Key::Tab => {
            reveal_strlit("Tab");
            assert forall|m: nat| 1 <= m <= 12 && key_label(key) == seq!['F'] + decimal(m) implies key_vk(key) == Some((0x6F + m) as u32) by {
                lemma_decimal_small(m);
                assert((seq!['F'] + decimal(m)).len() == decimal(m).len() + 1);
                assert((seq!['F'] + decimal(m))[0] == 'F');
            }
        },
        Key::Enter => {
            reveal_strlit("Enter");
            assert forall|m: nat| 1 <= m <= 12 && key_label(key) == seq!['F'] + decimal(m) implies key_vk(key) == Some((0x6F + m) as u32) by {
                lemma_decimal_small(m);
                assert((seq!['F'] + decimal(m)).len() == decimal(m).len() + 1);
                assert((seq!['F'] + decimal(m))[0] == 'F');
            }
        },
        Key::Space => {
            reveal_strlit("Space");
            assert forall|m: nat| 1 <= m <= 12 && key_label(key) == seq!['F'] + decimal(m) implies key_vk(key) == Some((0x6F + m) as u32) by {
                lemma_decimal_small(m);
                assert((seq!['F'] + decimal(m)).len() == decimal(m).len() + 1);
                assert((seq!['F'] + decimal(m))[0] == 'F');
            }
        },
        Key::Backspace => {
            reveal_strlit("Backspace");
            assert forall|m: nat| 1 <= m <= 12 && key_label(key) == seq!['F'] + decimal(m) implies key_vk(key) == Some((0x6F + m) as u32) by {
                lemma_decimal_small(m);
                assert((seq!['F'] + decimal(m)).len() == decimal(m).len() + 1);
                assert((seq!['F'] + decimal(m))[0] == 'F');
            }
        },
        Key::Insert => {
            reveal_strlit("Insert");
            assert forall|m: nat| 1 <= m <= 12 && key_label(key) == seq!['F'] + decimal(m) implies key_vk(key) == Some((0x6F + m) as u32) by {
                lemma_decimal_small(m);
                assert((seq!['F'] + decimal(m)).len() == decimal(m).len() + 1);
                assert((seq!['F'] + decimal(m))[0] == 'F');
            }
        },
        Key::Delete => {
            reveal_strlit("Delete");
            assert forall|m: nat| 1 <= m <= 12 && key_label(key) == seq!['F'] + decimal(m) implies key_vk(key) == Some((0x6F + m) as u32) by {
                lemma_decimal_small(m);
                assert((seq!['F'] + decimal(m)).len() == decimal(m).len() + 1);
                assert((seq!['F'] + decimal(m))[0] == 'F');
            }
        },
        Key::Home => {
            reveal_strlit("Home");
            assert forall|m: nat| 1 <= m <= 12 && key_label(key) == seq!['F'] + decimal(m) implies key_vk(key) == Some((0x6F + m) as u32) by {
                lemma_decimal_small(m);
                assert((seq!['F'] + decimal(m)).len() == decimal(m).len() + 1);
                assert((seq!['F'] + decimal(m))[0] == 'F');
            }
        },
        Key::End => {
            reveal_strlit("End");
            assert forall|m: nat| 1 <= m <= 12 && key_label(key) == seq!['F'] + decimal(m) implies key_vk(key) == Some((0x6F + m) as u32) by {
                lemma_decimal_small(m);
                assert((seq!['F'] + decimal(m)).len() == decimal(m).len() + 1);
                assert((seq!['F'] + decimal(m))[0] == 'F');
            }
        },
        Key::PageUp => {
            reveal_strlit("Page Up");
            assert forall|m: nat| 1 <= m <= 12 && key_label(key) == seq!['F'] + decimal(m) implies key_vk(key) == Some((0x6F + m) as u32) by {
                lemma_decimal_small(m);
                assert((seq!['F'] + decimal(m)).len() == decimal(m).len() + 1);
                assert((seq!['F'] + decimal(m))[0] == 'F');
            }
        },
        Key::PageDown => {
            reveal_strlit("Page Down");
            assert forall|m: nat| 1 <= m <= 12 && key_label(key) == seq!['F'] + decimal(m) implies key_vk(key) == Some((0x6F + m) as u32) by {
                lemma_decimal_small(m);
                assert((seq!['F'] + decimal(m)).len() == decimal(m).len() + 1);
                assert((seq!['F'] + decimal(m))[0] == 'F');
            }
        },
        Key::ArrowLeft => {
            reveal_strlit("Left");
            assert forall|m: nat| 1 <= m <= 12 && key_label(key) == seq!['F'] + decimal(m) implies key_vk(key) == Some((0x6F + m) as u32) by {
                lemma_decimal_small(m);
                assert((seq!['F'] + decimal(m)).len() == decimal(m).len() + 1);
                assert((seq!['F'] + decimal(m))[0] == 'F');
            }
        },
        Key::ArrowUp => {
            reveal_strlit("Up");
            assert forall|m: nat| 1 <= m <= 12 && key_label(key) == seq!['F'] + decimal(m) implies key_vk(key) == Some((0x6F + m) as u32) by {
                lemma_decimal_small(m);
                assert((seq!['F'] + decimal(m)).len() == decimal(m).len() + 1);
                assert((seq!['F'] + decimal(m))[0] == 'F');
            }
        },
        Key::ArrowRight => {
            reveal_strlit("Right");
            assert forall|m: nat| 1 <= m <= 12 && key_label(key) == seq!['F'] + decimal(m) implies key_vk(key) == Some((0x6F + m) as u32) by {
                lemma_decimal_small(m);
                assert((seq!['F'] + decimal(m)).len() == decimal(m).len() + 1);
                assert((seq!['F'] + decimal(m))[0] == 'F');
            }
        },
        Key::ArrowDown => {
            reveal_strlit("Down");
            assert forall|m: nat| 1 <= m <= 12 && key_label(key) == seq!['F'] + decimal(m) implies key_vk(key) == Some((0x6F + m) as u32) by {
                lemma_decimal_small(m);
                assert((seq!['F'] + decimal(m)).len() == decimal(m).len() + 1);
                assert((seq!['F'] + decimal(m))[0] == 'F');
            }
        },
        Key::A => {
            reveal_strlit("A");
            vstd::utf8::char_u32_cast('A', 0x41u32);
            assert forall|m: nat| 1 <= m <= 12 && key_label(key) == seq!['F'] + decimal(m) implies key_vk(key) == Some((0x6F + m) as u32) by {
                lemma_decimal_small(m);
                assert((seq!['F'] + decimal(m)).len() == decimal(m).len() + 1);
                assert((seq!['F'] + decimal(m))[0] == 'F');
            }
        },
        Key::B => {
            reveal_strlit("B");
            vstd::utf8::char_u32_cast('B', 0x42u32);
            assert forall|m: nat| 1 <= m <= 12 && key_label(key) == seq!['F'] + decimal(m) implies key_vk(key) == Some((0x6F + m) as u32) by {
                lemma_decimal_small(m);
                assert((seq!['F'] + decimal(m)).len() == decimal(m).len() + 1);
                assert((seq!['F'] + decimal(m))[0] == 'F');
            }
        },
        Key::C => {
            reveal_strlit("C");
            vstd::utf8::char_u32_cast('C', 0x43u32);
            assert forall|m: nat| 1 <= m <= 12 && key_label(key) == seq!['F'] + decimal(m) implies key_vk(key) == Some((0x6F + m) as u32) by {
                lemma_decimal_small(m);
                assert((seq!['F'] + decimal(m)).len() == decimal(m).len() + 1);
                assert((seq!['F'] + decimal(m))[0] == 'F');
            }
        },
        Key::D => {
            reveal_strlit("D");
            vstd::utf8::char_u32_cast('D', 0x44u32);
            assert forall|m: nat| 1 <= m <= 12 && key_label(key) == seq!['F'] + decimal(m) implies key_vk(key) == Some((0x6F + m) as u32) by {
                lemma_decimal_small(m);
                assert((seq!['F'] + decimal(m)).len() == decimal(m).len() + 1);
                assert((seq!['F'] + decimal(m))[0] == 'F');
            }
        },
        Key::E => {
            reveal_strlit("E");
            vstd::utf8::char_u32_cast('E', 0x45u32);
            assert forall|m: nat| 1 <= m <= 12 && key_label(key) == seq!['F'] + decimal(m) implies key_vk(key) == Some((0x6F + m) as u32) by {
                lemma_decimal_small(m);
                assert((seq!['F'] + decimal(m)).len() == decimal(m).len() + 1);
                assert((seq!['F'] + decimal(m))[0] == 'F');
            }
        },
        Key::F => {
            reveal_strlit("F");
            vstd::utf8::char_u32_cast('F', 0x46u32);
            assert forall|m: nat| 1 <= m <= 12 && key_label(key) == seq!['F'] + decimal(m) implies key_vk(key) == Some((0x6F + m) as u32) by {
                lemma_decimal_small(m);
                assert((seq!['F'] + decimal(m)).len() == decimal(m).len() + 1);
                assert((seq!['F'] + decimal(m))[0] == 'F');
            }
        },
        Key::G => {
            reveal_strlit("G");
            vstd::utf8::char_u32_cast('G', 0x47u32);
            assert forall|m: nat| 1 <= m <= 12 && key_label(key) == seq!['F'] + decimal(m) implies key_vk(key) == Some((0x6F + m) as u32) by {
                lemma_decimal_small(m);
                assert((seq!['F'] + decimal(m)).len() == decimal(m).len() + 1);
                assert((seq!['F'] + decimal(m))[0] == 'F');
            }
        },
        Key::H => {
            reveal_strlit("H");
            vstd::utf8::char_u32_cast('H', 0x48u32);
            assert forall|m: nat| 1 <= m <= 12 && key_label(key) == seq!['F'] + decimal(m) implies key_vk(key) == Some((0x6F + m) as u32) by {
                lemma_decimal_small(m);
                assert((seq!['F'] + decimal(m)).len() == decimal(m).len() + 1);
                assert((seq!['F'] + decimal(m))[0] == 'F');
            }
        },
        Key::I => {
            reveal_strlit("I");
            vstd::utf8::char_u32_cast('I', 0x49u32);
            assert forall|m: nat| 1 <= m <= 12 && key_label(key) == seq!['F'] + decimal(m) implies key_vk(key) == Some((0x6F + m) as u32) by {
                lemma_decimal_small(m);
                assert((seq!['F'] + decimal(m)).len() == decimal(m).len() + 1);
                assert((seq!['F'] + decimal(m))[0] == 'F');
            }
        },
        Key::J => {
            reveal_strlit("J");
            vstd::utf8::char_u32_cast('J', 0x4au32);
            assert forall|m: nat| 1 <= m <= 12 && key_label(key) == seq!['F'] + decimal(m) implies key_vk(key) == Some((0x6F + m) as u32) by {
                lemma_decimal_small(m);
                assert((seq!['F'] + decimal(m)).len() == decimal(m).len() + 1);
                assert((seq!['F'] + decimal(m))[0] == 'F');
            }
        },
        Key::K => {
            reveal_strlit("K");
            vstd::utf8::char_u32_cast('K', 0x4bu32);
            assert forall|m: nat| 1 <= m <= 12 && key_label(key) == seq!['F'] + decimal(m) implies key_vk(key) == Some((0x6F + m) as u32) by {
                lemma_decimal_small(m);
                assert((seq!['F'] + decimal(m)).len() == decimal(m).len() + 1);
                assert((seq!['F'] + decimal(m))[0] == 'F');
            }
        },
        Key::L => {
            reveal_strlit("L");
            vstd::utf8::char_u32_cast('L', 0x4cu32);
            assert forall|m: nat| 1 <= m <= 12 && key_label(key) == seq!['F'] + decimal(m) implies key_vk(key) == Some((0x6F + m) as u32) by {
                lemma_decimal_small(m);
                assert((seq!['F'] + decimal(m)).len() == decimal(m).len() + 1);
                assert((seq!['F'] + decimal(m))[0] == 'F');
            }
        },
        Key::M => {
            reveal_strlit("M");
            vstd::utf8::char_u32_cast('M', 0x4du32);
            assert forall|m: nat| 1 <= m <= 12 && key_label(key) == seq!['F'] + decimal(m) implies key_vk(key) == Some((0x6F + m) as u32) by {
                lemma_decimal_small(m);
                assert((seq!['F'] + decimal(m)).len() == decimal(m).len() + 1);
                assert((seq!['F'] + decimal(m))[0] == 'F');
            }
        },
        Key::N => {
            reveal_strlit("N");
            vstd::utf8::char_u32_cast('N', 0x4eu32);
            assert forall|m: nat| 1 <= m <= 12 && key_label(key) == seq!['F'] + decimal(m) implies key_vk(key) == Some((0x6F + m) as u32) by {
                lemma_decimal_small(m);
                assert((seq!['F'] + decimal(m)).len() == decimal(m).len() + 1);
                assert((seq!['F'] + decimal(m))[0] == 'F');
            }
        },
        Key::O => {
            reveal_strlit("O");
            vstd::utf8::char_u32_cast('O', 0x4fu32);
            assert forall|m: nat| 1 <= m <= 12 && key_label(key) == seq!['F'] + decimal(m) implies key_vk(key) == Some((0x6F + m) as u32) by {
                lemma_decimal_small(m);
                assert((seq!['F'] + decimal(m)).len() == decimal(m).len() + 1);
                assert((seq!['F'] + decimal(m))[0] == 'F');
            }
        },
        Key::P => {
            reveal_strlit("P");
            vstd::utf8::char_u32_cast('P', 0x50u32);
            assert forall|m: nat| 1 <= m <= 12 && key_label(key) == seq!['F'] + decimal(m) implies key_vk(key) == Some((0x6F + m) as u32) by {
                lemma_decimal_small(m);
                assert((seq!['F'] + decimal(m)).len() == decimal(m).len() + 1);
                assert((seq!['F'] + decimal(m))[0] == 'F');
            }
        },
        Key::Q => {
            reveal_strlit("Q");
            vstd::utf8::char_u32_cast('Q', 0x51u32);
            assert forall|m: nat| 1 <= m <= 12 && key_label(key) == seq!['F'] + decimal(m) implies key_vk(key) == Some((0x6F + m) as u32) by {
                lemma_decimal_small(m);
                assert((seq!['F'] + decimal(m)).len() == decimal(m).len() + 1);
                assert((seq!['F'] + decimal(m))[0] == 'F');
            }
        },
        Key::R => {
            reveal_strlit("R");
            vstd::utf8::char_u32_cast('R', 0x52u32);
            assert forall|m: nat| 1 <= m <= 12 && key_label(key) == seq!['F'] + decimal(m) implies key_vk(key) == Some((0x6F + m) as u32) by {
                lemma_decimal_small(m);
                assert((seq!['F'] + decimal(m)).len() == decimal(m).len() + 1);
                assert((seq!['F'] + decimal(m))[0] == 'F');
            }
        },
        Key::S => {
            reveal_strlit("S");
            vstd::utf8::char_u32_cast('S', 0x53u32);
            assert forall|m: nat| 1 <= m <= 12 && key_label(key) == seq!['F'] + decimal(m) implies key_vk(key) == Some((0x6F + m) as u32) by {
                lemma_decimal_small(m);
                assert((seq!['F'] + decimal(m)).len() == decimal(m).len() + 1);
                assert((seq!['F'] + decimal(m))[0] == 'F');
            }
        },
        Key::T => {
            reveal_strlit("T");
            vstd::utf8::char_u32_cast('T', 0x54u32);
            assert forall|m: nat| 1 <= m <= 12 && key_label(key) == seq!['F'] + decimal(m) implies key_vk(key) == Some((0x6F + m) as u32) by {
                lemma_decimal_small(m);
                assert((seq!['F'] + decimal(m)).len() == decimal(m).len() + 1);
                assert((seq!['F'] + decimal(m))[0] == 'F');
            }
        },
        Key::U => {
            reveal_strlit("U");
            vstd::utf8::char_u32_cast('U', 0x55u32);
            assert forall|m: nat| 1 <= m <= 12 && key_label(key) == seq!['F'] + decimal(m) implies key_vk(key) == Some((0x6F + m) as u32) by {
                lemma_decimal_small(m);
                assert((seq!['F'] + decimal(m)).len() == decimal(m).len() + 1);
                assert((seq!['F'] + decimal(m))[0] == 'F');
            }
        },
        Key::V => {
            reveal_strlit("V");
            vstd::utf8::char_u32_cast('V', 0x56u32);
            assert forall|m: nat| 1 <= m <= 12 && key_label(key) == seq!['F'] + decimal(m) implies key_vk(key) == Some((0x6F + m) as u32) by {
                lemma_decimal_small(m);
                assert((seq!['F'] + decimal(m)).len() == decimal(m).len() + 1);
                assert((seq!['F'] + decimal(m))[0] == 'F');
            }
        },
        Key::W => {
            reveal_strlit("W");
            vstd::utf8::char_u32_cast('W', 0x57u32);
            assert forall|m: nat| 1 <= m <= 12 && key_label(key) == seq!['F'] + decimal(m) implies key_vk(key) == Some((0x6F + m) as u32) by {
                lemma_decimal_small(m);
                assert((seq!['F'] + decimal(m)).len() == decimal(m).len() + 1);
                assert((seq!['F'] + decimal(m))[0] == 'F');
            }
        },
        Key::X => {
            reveal_strlit("X");
            vstd::utf8::char_u32_cast('X', 0x58u32);
            assert forall|m: nat| 1 <= m <= 12 && key_label(key) == seq!['F'] + decimal(m) implies key_vk(key) == Some((0x6F + m) as u32) by {
                lemma_decimal_small(m);
                assert((seq!['F'] + decimal(m)).len() == decimal(m).len() + 1);
                assert((seq!['F'] + decimal(m))[0] == 'F');
            }
        },
        Key::Y => {
            reveal_strlit("Y");
            vstd::utf8::char_u32_cast('Y', 0x59u32);
            assert forall|m: nat| 1 <= m <= 12 && key_label(key) == seq!['F'] + decimal(m) implies key_vk(key) == Some((0x6F + m) as u32) by {
                lemma_decimal_small(m);
                assert((seq!['F'] + decimal(m)).len() == decimal(m).len() + 1);
                assert((seq!['F'] + decimal(m))[0] == 'F');
            }
        },
        Key::Z => {
            reveal_strlit("Z");
            vstd::utf8::char_u32_cast('Z', 0x5au32);
            assert forall|m: nat| 1 <= m <= 12 && key_label(key) == seq!['F'] + decimal(m) implies key_vk(key) == Some((0x6F + m) as u32) by {
                lemma_decimal_small(m);
                assert((seq!['F'] + decimal(m)).len() == decimal(m).len() + 1);
                assert((seq!['F'] + decimal(m))[0] == 'F');
            }
        },
        Key::Num0 => {
            reveal_strlit("0");
            vstd::utf8::char_u32_cast('0', 0x30u32);
            assert forall|m: nat| 1 <= m <= 12 && key_label(key) == seq!['F'] + decimal(m) implies key_vk(key) == Some((0x6F + m) as u32) by {
                lemma_decimal_small(m);
                assert((seq!['F'] + decimal(m)).len() == decimal(m).len() + 1);
                assert((seq!['F'] + decimal(m))[0] == 'F');
            }
        },
        Key::Num1 => {
            reveal_strlit("1");
            vstd::utf8::char_u32_cast('1', 0x31u32);
            assert forall|m: nat| 1 <= m <= 12 && key_label(key) == seq!['F'] + decimal(m) implies key_vk(key) == Some((0x6F + m) as u32) by {
                lemma_decimal_small(m);
                assert((seq!['F'] + decimal(m)).len() == decimal(m).len() + 1);
                assert((seq!['F'] + decimal(m))[0] == 'F');
            }
        },
        Key::Num2 => {
            reveal_strlit("2");
            vstd::utf8::char_u32_cast('2', 0x32u32);
            assert forall|m: nat| 1 <= m <= 12 && key_label(key) == seq!['F'] + decimal(m) implies key_vk(key) == Some((0x6F + m) as u32) by {
                lemma_decimal_small(m);
                assert((seq!['F'] + decimal(m)).len() == decimal(m).len() + 1);
                assert((seq!['F'] + decimal(m))[0] == 'F');
            }
        },
        Key::Num3 => {
            reveal_strlit("3");
            vstd::utf8::char_u32_cast('3', 0x33u32);
            assert forall|m: nat| 1 <= m <= 12 && key_label(key) == seq!['F'] + decimal(m) implies key_vk(key) == Some((0x6F + m) as u32) by {
                lemma_decimal_small(m);
                assert((seq!['F'] + decimal(m)).len() == decimal(m).len() + 1);
                assert((seq!['F'] + decimal(m))[0] == 'F');
            }
        },
        Key::Num4 => {
            reveal_strlit("4");
            vstd::utf8::char_u32_cast('4', 0x34u32);
            assert forall|m: nat| 1 <= m <= 12 && key_label(key) == seq!['F'] + decimal(m) implies key_vk(key) == Some((0x6F + m) as u32) by {
                lemma_decimal_small(m);
                assert((seq!['F'] + decimal(m)).len() == decimal(m).len() + 1);
                assert((seq!['F'] + decimal(m))[0] == 'F');
            }
        },
        Key::Num5 => {
            reveal_strlit("5");
            vstd::utf8::char_u32_cast('5', 0x35u32);
            assert forall|m: nat| 1 <= m <= 12 && key_label(key) == seq!['F'] + decimal(m) implies key_vk(key) == Some((0x6F + m) as u32) by {
                lemma_decimal_small(m);
                assert((seq!['F'] + decimal(m)).len() == decimal(m).len() + 1);
                assert((seq!['F'] + decimal(m))[0] == 'F');
            }
        },
        Key::Num6 => {
            reveal_strlit("6");
            vstd::utf8::char_u32_cast('6', 0x36u32);
            assert forall|m: nat| 1 <= m <= 12 && key_label(key) == seq!['F'] + decimal(m) implies key_vk(key) == Some((0x6F + m) as u32) by {
                lemma_decimal_small(m);
                assert((seq!['F'] + decimal(m)).len() == decimal(m).len() + 1);
                assert((seq!['F'] + decimal(m))[0] == 'F');
            }
        },
        Key::Num7 => {
            reveal_strlit("7");
            vstd::utf8::char_u32_cast('7', 0x37u32);
            assert forall|m: nat| 1 <= m <= 12 && key_label(key) == seq!['F'] + decimal(m) implies key_vk(key) == Some((0x6F + m) as u32) by {
                lemma_decimal_small(m);
                assert((seq!['F'] + decimal(m)).len() == decimal(m).len() + 1);
                assert((seq!['F'] + decimal(m))[0] == 'F');
            }
        },
        Key::Num8 => {
            reveal_strlit("8");
            vstd::utf8::char_u32_cast('8', 0x38u32);
            assert forall|m: nat| 1 <= m <= 12 && key_label(key) == seq!['F'] + decimal(m) implies key_vk(key) == Some((0x6F + m) as u32) by {
                lemma_decimal_small(m);
                assert((seq!['F'] + decimal(m)).len() == decimal(m).len() + 1);
                assert((seq!['F'] + decimal(m))[0] == 'F');
            }
        },
        Key::Num9 => {
            reveal_strlit("9");
            vstd::utf8::char_u32_cast('9', 0x39u32);
            assert forall|m: nat| 1 <= m <= 12 && key_label(key) == seq!['F'] + decimal(m) implies key_vk(key) == Some((0x6F + m) as u32) by {
                lemma_decimal_small(m);
                assert((seq!['F'] + decimal(m)).len() == decimal(m).len() + 1);
                assert((seq!['F'] + decimal(m))[0] == 'F');
            }
        },
        Key::F1 => {
            reveal_strlit("F1");
            lemma_decimal_small(1);
            assert(key_label(key) =~= seq!['F'] + decimal(1));
            assert forall|m: nat| 1 <= m <= 12 && key_label(key) == seq!['F'] + decimal(m) implies key_vk(key) == Some((0x6F + m) as u32) by {
                lemma_function_key_number(m, 1);
            }
        },
        Key::F2 => {
            reveal_strlit("F2");
            lemma_decimal_small(2);
            assert(key_label(key) =~= seq!['F'] + decimal(2));
            assert forall|m: nat| 1 <= m <= 12 && key_label(key) == seq!['F'] + decimal(m) implies key_vk(key) == Some((0x6F + m) as u32) by {
                lemma_function_key_number(m, 2);
            }
        },
        Key::F3 => {
            reveal_strlit("F3");
            lemma_decimal_small(3);
            assert(key_label(key) =~= seq!['F'] + decimal(3));
            assert forall|m: nat| 1 <= m <= 12 && key_label(key) == seq!['F'] + decimal(m) implies key_vk(key) == Some((0x6F + m) as u32) by {
                lemma_function_key_number(m, 3);
            }
        },
        Key::F4 => {
            reveal_strlit("F4");
            lemma_decimal_small(4);
            assert(key_label(key) =~= seq!['F'] + decimal(4));
            assert forall|m: nat| 1 <= m <= 12 && key_label(key) == seq!['F'] + decimal(m) implies key_vk(key) == Some((0x6F + m) as u32) by {
                lemma_function_key_number(m, 4);
            }
        },
        Key::F5 => {
            reveal_strlit("F5");
            lemma_decimal_small(5);
            assert(key_label(key) =~= seq!['F'] + decimal(5));
            assert forall|m: nat| 1 <= m <= 12 && key_label(key) == seq!['F'] + decimal(m) implies key_vk(key) == Some((0x6F + m) as u32) by {
                lemma_function_key_number(m, 5);
            }
        },
        Key::F6 => {
            reveal_strlit("F6");
            lemma_decimal_small(6);
            assert(key_label(key) =~= seq!['F'] + decimal(6));
            assert forall|m: nat| 1 <= m <= 12 && key_label(key) == seq!['F'] + decimal(m) implies key_vk(key) == Some((0x6F + m) as u32) by {
                lemma_function_key_number(m, 6);
            }
        },
        Key::F7 => {
            reveal_strlit("F7");
            lemma_decimal_small(7);
            assert(key_label(key) =~= seq!['F'] + decimal(7));
            assert forall|m: nat| 1 <= m <= 12 && key_label(key) == seq!['F'] + decimal(m) implies key_vk(key) == Some((0x6F + m) as u32) by {
                lemma_function_key_number(m, 7);
            }
        },
        Key::F8 => {
            reveal_strlit("F8");
            lemma_decimal_small(8);
            assert(key_label(key) =~= seq!['F'] + decimal(8));
            assert forall|m: nat| 1 <= m <= 12 && key_label(key) == seq!['F'] + decimal(m) implies key_vk(key) == Some((0x6F + m) as u32) by {
                lemma_function_key_number(m, 8);
            }
        },
        Key::F9 => {
            reveal_strlit("F9");
            lemma_decimal_small(9);
            assert(key_label(key) =~= seq!['F'] + decimal(9));
            assert forall|m: nat| 1 <= m <= 12 && key_label(key) == seq!['F'] + decimal(m) implies key_vk(key) == Some((0x6F + m) as u32) by {
                lemma_function_key_number(m, 9);
            }
        },
        Key::F10 => {
            reveal_strlit("F10");
            lemma_decimal_small(10);
            assert(key_label(key) =~= seq!['F'] + decimal(10));
            assert forall|m: nat| 1 <= m <= 12 && key_label(key) == seq!['F'] + decimal(m) implies key_vk(key) == Some((0x6F + m) as u32) by {
                lemma_function_key_number(m, 10);
            }
        },
        Key::F11 => {
            reveal_strlit("F11");
            lemma_decimal_small(11);
            assert(key_label(key) =~= seq!['F'] + decimal(11));
            assert forall|m: nat| 1 <= m <= 12 && key_label(key) == seq!['F'] + decimal(m) implies key_vk(key) == Some((0x6F + m) as u32) by {
                lemma_function_key_number(m, 11);
            }
        },
        Key::F12 => {
            reveal_strlit("F12");
            lemma_decimal_small(12);
            assert(key_label(key) =~= seq!['F'] + decimal(12));
            assert forall|m: nat| 1 <= m <= 12 && key_label(key) == seq!['F'] + decimal(m) implies key_vk(key) == Some((0x6F + m) as u32) by {
                lemma_function_key_number(m, 12);
            }
        },
        Key::Other => {
            reveal_strlit("Key");
            assert forall|m: nat| 1 <= m <= 12 && key_label(key) == seq!['F'] + decimal(m) implies key_vk(key) == Some((0x6F + m) as u32) by {
                lemma_decimal_small(m);
                assert((seq!['F'] + decimal(m)).len() == decimal(m).len() + 1);
                assert((seq!['F'] + decimal(m))[0] == 'F');
            }
        },
    }
}

/// Two function-key labels are equal only for equal numbers.
proof fn lemma_function_key_number(m: nat, n: nat)
    requires
        1 <= m <= 12,
        1 <= n <= 12,
        seq!['F'] + decimal(m) == seq!['F'] + decimal(n),
    ensures
        m == n,
{
    lemma_decimal_small(m);
    lemma_decimal_small(n);
    let lm = seq!['F'] + decimal(m);
    let ln = seq!['F'] + decimal(n);
    assert(decimal(m) =~= lm.subrange(1, lm.len() as int));
    assert(decimal(n) =~= ln.subrange(1, ln.len() as int));
    if m < 10 && n < 10 {
        assert(decimal(m)[0] == decimal(n)[0]);
    } else if m >= 10 && n >= 10 {
        assert(decimal(m)[1] == decimal(n)[1]);
    }
}

/// The numbers 1 to 12 are written with one or two digits, the two-digit
/// ones starting with `1`.
proof fn lemma_decimal_small(m: nat)
    requires
        1 <= m <= 12,
    ensures
        m < 10 ==> decimal(m) == seq![digit_char(m as int)],
        m >= 10 ==> decimal(m) == seq!['1', digit_char((m - 10) as int)],
        decimal(m).len() == (if m < 10 { 1int } else { 2int }),
        m < 10 ==> digit_char(m as int) != 'F',
{
    reveal_with_fuel(decimal, 2);
    if m >= 10 {
        assert(decimal(m / 10) == seq!['1']);
        assert(decimal(m) =~= seq!['1', digit_char((m - 10) as int)]);
    }
}

} // verus!
