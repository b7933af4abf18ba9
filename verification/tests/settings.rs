use zenshot::autostart::{entry_change, is_enabled, quoted_exe, run_value_enabled, update_failed, EntryChange, DESKTOP_ENTRY};
use std::path::PathBuf;
use zenshot::config::{config_path_in, default_save_dir_in, expand_home_with, Config, OutputFormat, PathBase, PathSpec};
use zenshot::hotkey::Hotkey;
use zenshot::options::{hotkey_caption, matches_target, record_step, use_print_screen, ListenTarget};

fn parts(p: &PathSpec) -> Vec<&str> {
    p.parts.iter().map(|s| s.as_str()).collect()
}

/// The base as `text:..` or `dir:..`.
fn base(p: &PathSpec) -> String {
    match &p.base {
        PathBase::Text(t) => format!("text:{t}"),
        PathBase::Dir(d) => format!("dir:{}", d.display()),
    }
}

fn home(s: &str) -> Option<PathBuf> {
    Some(PathBuf::from(s))
}

#[test]
fn output_format_extensions() {
    assert_eq!(OutputFormat::Png.extension(), "png");
    assert_eq!(OutputFormat::Jpeg.extension(), "jpg");
    assert_eq!(OutputFormat::Jpeg.label(), "JPEG");
}

#[test]
fn defaults_match_a_fresh_install() {
    let c = Config::with_save_dir("/shots".to_string());
    assert_eq!(c.save_dir, "/shots");
    assert_eq!(c.filename_format, "ZenShot_%Y-%m-%d_%H-%M-%S.png");
    assert_eq!(c.stroke_color, [239, 68, 68]);
    assert!(c.autostart && c.show_notifications && !c.capture_cursor && !c.keep_selection);
    assert_eq!(c.output_format, OutputFormat::Png);
    assert_eq!(c.jpeg_quality, 90);
    assert_eq!(c.hotkey_capture, Hotkey::print_screen_default());
    assert!(c.hotkey_capture_enabled);
    assert_eq!(c.hotkey_save_fullscreen, Hotkey::ctrl_alt_s());
    assert!(c.hotkey_save_fullscreen_enabled);
    assert_eq!(default_save_dir_in(None), "~/Pictures/Screenshots");
}

#[test]
fn default_save_dir_is_screenshots_in_the_pictures_folder() {
    let dir = default_save_dir_in(Some("/home/u/Pictures".to_string()));
    assert!(dir == "/home/u/Pictures/Screenshots" || dir == "/home/u/Pictures\\Screenshots");
    let trailing = default_save_dir_in(Some("/home/u/Pictures/".to_string()));
    assert_eq!(trailing, "/home/u/Pictures/Screenshots");
}

#[test]
fn jpeg_quality_is_clamped() {
    let mut c = Config::with_save_dir(String::new());
    for (q, want) in [(0u8, 10u8), (9, 10), (10, 10), (55, 55), (100, 100), (101, 100), (255, 100)] {
        c.jpeg_quality = q;
        assert_eq!(c.jpeg_quality_clamped(), want);
    }
}

#[test]
fn tilde_backslash_expands_on_windows_style_paths() {
    let p = expand_home_with(r"~\Pictures\Screenshots", home("/home/u"));
    assert_eq!(base(&p), "dir:/home/u");
    assert_eq!(parts(&p), vec![r"Pictures\Screenshots"]);
    let q = expand_home_with(r"C:\shots", home("/home/u"));
    assert_eq!(base(&q), r"text:C:\shots");
    assert!(q.parts.is_empty());
    let r = expand_home_with("~/Pictures", home("/home/u"));
    assert_eq!((base(&r), parts(&r)), ("dir:/home/u".to_string(), vec!["Pictures"]));
    let no_home = expand_home_with("~/Pictures", None);
    assert_eq!((base(&no_home), no_home.parts.len()), ("text:~/Pictures".to_string(), 0));
}

#[test]
fn bare_tilde_is_home_and_tilde_word_is_kept() {
    let p = expand_home_with("~", home("/home/u"));
    assert_eq!((base(&p), p.parts.len()), ("dir:/home/u".to_string(), 0));
    assert_eq!(base(&expand_home_with("~", None)), "text:~");
    assert_eq!(base(&expand_home_with("~user/x", home("/h"))), "text:~user/x");
}

#[test]
fn the_home_directory_is_kept_as_the_system_gave_it() {
    let dir = PathBuf::from("/home/u with space");
    match expand_home_with("~/x", Some(dir.clone())).base {
        PathBase::Dir(d) => assert_eq!(d, dir),
        PathBase::Text(t) => panic!("home became text {t}"),
    }
}

#[test]
fn config_file_lives_in_a_zenshot_folder() {
    let p = config_path_in(PathBuf::from("/cfg"));
    assert_eq!((base(&p), parts(&p)), ("dir:/cfg".to_string(), vec!["zenshot", "config.toml"]));
}

#[test]
fn linux_autostart_rules() {
    assert!(!is_enabled(true, true));
    assert!(is_enabled(false, true));
    assert!(!is_enabled(false, false));
    assert_eq!(entry_change(true, false), EntryChange::Write);
    assert_eq!(entry_change(true, true), EntryChange::Remove);
    assert_eq!(entry_change(false, false), EntryChange::Remove);
    assert!(DESKTOP_ENTRY.contains("Exec=zenshot --warm\n"));
}

#[test]
fn windows_autostart_rules() {
    assert_eq!(quoted_exe(r"C:\a b\zenshot.exe"), "\"C:\\a b\\zenshot.exe\"");
    assert!(update_failed(true, 5));
    assert!(!update_failed(false, 2));
    assert!(!update_failed(true, 0));
    assert!(run_value_enabled(0, 4));
    assert!(!run_value_enabled(0, 2));
    assert!(!run_value_enabled(2, 40));
}

#[test]
fn recording_a_shortcut() {
    let mut c = Config::with_save_dir(String::new());
    let h = Hotkey::ctrl_alt_s();
    assert_eq!(record_step(&mut c, Some(ListenTarget::SaveFullscreen), false, Some(h)), None);
    assert_eq!(c.hotkey_save_fullscreen, h);
    assert_eq!(c.hotkey_capture, Hotkey::print_screen_default());
    assert_eq!(record_step(&mut c, Some(ListenTarget::Capture), true, Some(h)), None);
    assert_eq!(c.hotkey_capture, Hotkey::print_screen_default());
    assert_eq!(record_step(&mut c, Some(ListenTarget::Capture), false, None), Some(ListenTarget::Capture));
    assert_eq!(record_step(&mut c, None, false, Some(h)), None);
    assert_eq!(c.hotkey_capture, Hotkey::print_screen_default());
}

#[test]
fn shortcut_captions_and_print_screen_button() {
    let h = Hotkey::ctrl_shift_s();
    assert!(matches_target(Some(ListenTarget::Capture), ListenTarget::Capture));
    assert!(!matches_target(Some(ListenTarget::Capture), ListenTarget::SaveFullscreen));
    assert!(!matches_target(None, ListenTarget::Capture));
    assert_eq!(hotkey_caption(Some(ListenTarget::Capture), ListenTarget::Capture, &h), "Press a shortcut...");
    assert_eq!(hotkey_caption(None, ListenTarget::Capture, &h), "Ctrl + Shift + S");
    let mut c = Config::with_save_dir(String::new());
    c.hotkey_capture = h;
    c.hotkey_capture_enabled = false;
    use_print_screen(&mut c);
    assert_eq!(c.hotkey_capture, Hotkey::print_screen_default());
    assert!(c.hotkey_capture_enabled);
}
