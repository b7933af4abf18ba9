use zenshot::hotkey::{from_egui, vk_name, Hotkey, Key, Modifiers};

fn no_modifiers() -> Modifiers {
    Modifiers { alt: false, ctrl: false, shift: false, mac_cmd: false, command: false }
}

#[test]
fn print_screen_displays_cleanly() {
    assert_eq!(Hotkey::print_screen_default().display(), "Print Screen");
}

#[test]
fn combo_displays_in_lightshot_order() {
    assert_eq!(Hotkey::ctrl_shift_s().display(), "Ctrl + Shift + S");
    assert_eq!(Hotkey::ctrl_alt_s().display(), "Ctrl + Alt + S");
}

#[test]
fn all_modifiers_display_before_the_key() {
    let h = Hotkey { ctrl: true, alt: true, shift: true, win: true, vk: 0x7B };
    assert_eq!(h.display(), "Ctrl + Alt + Shift + Win + F12");
}

#[test]
fn unknown_virtual_key_reads_key() {
    assert_eq!(vk_name(0xFF), "Key");
    assert_eq!(vk_name(0x1B), "Esc");
    assert_eq!(vk_name(0x22), "Page Down");
}

#[test]
fn native_modifier_bits() {
    assert_eq!(Hotkey::ctrl_shift_s().native_modifiers(), 0x2 | 0x4);
    assert_eq!(Hotkey::ctrl_alt_s().native_modifiers(), 0x1 | 0x2);
    assert_eq!(Hotkey::print_screen_default().native_modifiers(), 0);
    let win = Hotkey { ctrl: false, alt: false, shift: false, win: true, vk: 0x41 };
    assert_eq!(win.native_modifiers(), 0x8);
}

#[test]
fn escape_and_unlisted_keys_do_not_bind() {
    assert_eq!(from_egui(Key::Escape, no_modifiers()), None);
    assert_eq!(from_egui(Key::Other, no_modifiers()), None);
}

#[test]
fn recorded_key_keeps_its_name_and_modifiers() {
    let mods = Modifiers { alt: true, ctrl: false, shift: true, mac_cmd: false, command: true };
    let h = from_egui(Key::ArrowLeft, mods).unwrap();
    assert_eq!(h, Hotkey { ctrl: true, alt: true, shift: true, win: false, vk: 0x25 });
    assert_eq!(h.display(), "Ctrl + Alt + Shift + Left");
    let digit = from_egui(Key::Num7, no_modifiers()).unwrap();
    assert_eq!(digit.display(), "7");
    let mac = Modifiers { alt: false, ctrl: false, shift: false, mac_cmd: true, command: false };
    assert_eq!(from_egui(Key::F5, mac).unwrap().display(), "Win + F5");
}
