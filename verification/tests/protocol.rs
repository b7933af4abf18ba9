use zenshot::cli::{help_text, Mode, Platform};
use zenshot::ipc::{command_message, parse_command, IpcCommand, ACK, SOCKET_NAME};
use zenshot::notify::{copied, saved, wide, WM_RELOAD_CONFIG};

fn args(list: &[&str]) -> Vec<String> {
    list.iter().map(|s| s.to_string()).collect()
}

#[test]
fn test_ipc_roundtrip() {
    for cmd in [IpcCommand::Capture, IpcCommand::Quit] {
        assert_eq!(parse_command(command_message(cmd).as_bytes()), Some(cmd));
    }
    assert_eq!(command_message(IpcCommand::Capture), "capture\n");
    assert_eq!(command_message(IpcCommand::Quit), "quit\n");
    assert_eq!(SOCKET_NAME, "zenshot.sock");
    assert_eq!(ACK, "ok\n");
}

#[test]
fn listener_trims_white_space_and_rejects_the_rest() {
    assert_eq!(parse_command(b"  capture \r\n"), Some(IpcCommand::Capture));
    assert_eq!(parse_command("\u{3000}quit\u{2029}".as_bytes()), Some(IpcCommand::Quit));
    assert_eq!(parse_command(b"Capture"), None);
    assert_eq!(parse_command(b"capture now"), None);
    assert_eq!(parse_command(b""), None);
    assert_eq!(parse_command(&[0xff, 0xfe]), None);
}

#[test]
fn help_beats_every_other_option() {
    assert_eq!(Mode::from_args(&args(&["--capture", "--help"]), Platform::Windows), Mode::Help);
    assert_eq!(Mode::from_args(&args(&["-h", "--version"]), Platform::Linux), Mode::Help);
    assert_eq!(Mode::from_args(&args(&["-V"]), Platform::Linux), Mode::Version);
}

#[test]
fn modes_in_priority_order() {
    assert_eq!(Mode::from_args(&args(&["--config", "--options"]), Platform::Linux), Mode::PrintConfig);
    assert_eq!(Mode::from_args(&args(&["-o", "--daemon"]), Platform::Linux), Mode::Options);
    assert_eq!(Mode::from_args(&args(&["--daemon", "--enable-autostart"]), Platform::Windows), Mode::SetAutostart(true));
    assert_eq!(Mode::from_args(&args(&["--disable-autostart"]), Platform::Windows), Mode::SetAutostart(false));
    assert_eq!(Mode::from_args(&args(&["--save-fullscreen", "--daemon"]), Platform::Windows), Mode::Daemon);
    assert_eq!(Mode::from_args(&args(&["--save-fullscreen", "-c"]), Platform::Windows), Mode::SaveFullscreen);
    assert_eq!(Mode::from_args(&args(&["-c"]), Platform::Windows), Mode::Capture);
}

#[test]
fn default_mode_depends_on_platform() {
    assert_eq!(Mode::from_args(&args(&[]), Platform::Windows), Mode::Daemon);
    assert_eq!(Mode::from_args(&args(&[]), Platform::Linux), Mode::Capture);
    assert_eq!(Mode::from_args(&args(&["file.png"]), Platform::Other), Mode::Capture);
}

#[test]
fn unknown_option_is_reported_by_position() {
    assert_eq!(Mode::from_args(&args(&["plain", "--bogus", "-x"]), Platform::Linux), Mode::UnknownOption(1));
}

#[test]
fn clipboard_holder_argument_only_first_and_only_on_linux() {
    let holder = args(&["--internal-clipboard-serve", "--help"]);
    assert_eq!(Mode::from_args(&holder, Platform::Linux), Mode::ClipboardServe);
    assert_eq!(Mode::from_args(&holder, Platform::Windows), Mode::Help);
    let late = args(&["x", "--internal-clipboard-serve"]);
    assert_eq!(Mode::from_args(&late, Platform::Linux), Mode::UnknownOption(1));
}

#[test]
fn notification_texts() {
    assert_eq!(copied(), "Your screenshot is copied to clipboard");
    assert_eq!(saved("/tmp/a.png"), "Screenshot is saved to /tmp/a.png. Click to open the folder.");
    assert_eq!(WM_RELOAD_CONFIG, 0x8002);
}

#[test]
fn wide_strings_are_nul_terminated_utf16() {
    assert_eq!(wide("Zen"), vec![0x5A, 0x65, 0x6E, 0]);
    assert_eq!(wide(""), vec![0]);
    assert_eq!(wide("\u{1F600}"), vec![0xD83D, 0xDE00, 0]);
    assert_eq!(wide("é—"), vec![0xE9, 0x2014, 0]);
}

#[test]
fn help_text_names_every_option_and_the_platform_default() {
    let linux = help_text("1.2.3", Platform::Linux);
    assert!(linux.starts_with("ZenShot 1.2.3 \u{2014} featherlight screen capture\n\nUsage: zenshot [OPTIONS]\n"));
    assert!(linux.contains("\n  -h, --help          Show this help\n\nWith no arguments on Linux, ZenShot opens the overlay.\n"));
    assert!(linux.ends_with("  Ctrl+X / Esc  Close without saving\n"));
    let windows = help_text("1.2.3", Platform::Windows);
    assert!(windows.contains("With no arguments on Windows, ZenShot starts in the tray.\n"));
    assert!(!windows.contains("on Linux"));
}

#[test]
fn wide_strings_decode_back_to_their_text() {
    for s in ["Ab", "ZenShot \u{2014} 😀", ""] {
        let w = wide(s);
        assert_eq!(*w.last().unwrap(), 0);
        assert_eq!(w.len(), s.encode_utf16().count() + 1);
        assert_eq!(String::from_utf16(&w[..w.len() - 1]).unwrap(), s);
    }
    assert_eq!(wide("Ab"), vec![0x41, 0x62, 0]);
}
