use zenshot::capture::{bgrx_to_rgba, parent_window, portal_image_path, portal_request_path, portal_token, retry_after_failure, PortalUri};
use zenshot::config::Config;
use zenshot::export::{claim_step, numbered_file_name, ClaimStep, CreateOutcome};
use zenshot::hotkey::Hotkey;
use zenshot::instance::lock_file_name;
use zenshot::notify::wide;
use zenshot::tray::{
    about_text, copydata_text, copydata_text_units, fullscreen_saved, hotkeys_to_register, message_action_of, registration_failed,
    registration_modifiers, self_command_line, tray_tip, DaemonAction,
};

#[test]
fn tray_messages_dispatch() {
    assert_eq!(message_action_of(0x8001, 0, 0x0205, 0), DaemonAction::ShowMenu);
    assert_eq!(message_action_of(0x8001, 0, 0x0202, 0), DaemonAction::Capture);
    assert_eq!(message_action_of(0x8001, 0, 0x0203, 0), DaemonAction::Capture);
    assert_eq!(message_action_of(0x8001, 0, 0x0200, 0), DaemonAction::Ignore);
    assert_eq!(message_action_of(0x0312, 1, 0, 0), DaemonAction::Capture);
    assert_eq!(message_action_of(0x0312, 2, 0, 0), DaemonAction::SaveFullscreen);
    assert_eq!(message_action_of(0x0111, 0x1_0000 + 1005, 0, 0), DaemonAction::Exit);
    assert_eq!(message_action_of(0x0111, 1002, 0, 0), DaemonAction::OpenOptions);
    assert_eq!(message_action_of(0x004A, 0, 0, 0), DaemonAction::ShowNotification);
    assert_eq!(message_action_of(0x8002, 0, 0, 0), DaemonAction::ReloadConfig);
    assert_eq!(message_action_of(0x0002, 0, 0, 0), DaemonAction::Shutdown);
    assert_eq!(message_action_of(0xC123, 0, 0, 0xC123), DaemonAction::RestoreIcon);
    assert_eq!(message_action_of(0x0000, 0, 0, 0), DaemonAction::Default);
    assert_eq!(message_action_of(0x0010, 0, 0, 0), DaemonAction::Default);
}

#[test]
fn tray_texts() {
    let mut c = Config::with_save_dir(String::new());
    assert_eq!(tray_tip(&c), "ZenShot \u{2014} press Print Screen to take a screenshot");
    c.hotkey_capture_enabled = false;
    assert_eq!(tray_tip(&c), "ZenShot");
    assert_eq!(fullscreen_saved("C:\\x.png"), "Screenshot is saved to C:\\x.png");
    assert_eq!(about_text("1.2.3"), "ZenShot 1.2.3\nFeatherlight screen capture.\n\nhttps://github.com/masudranaxpert/zenshot");
    assert_eq!(self_command_line("C:\\z.exe", "--capture"), "\"C:\\z.exe\" --capture");
    assert_eq!(copydata_text_units(10), 4);
    assert_eq!(copydata_text_units(1), 0);
}

#[test]
fn hotkey_registration_plan() {
    let mut c = Config::with_save_dir(String::new());
    let both = hotkeys_to_register(&c);
    assert_eq!(both, (Some(Hotkey::print_screen_default()), Some(Hotkey::ctrl_alt_s())));
    assert!(registration_failed(both, true, false));
    c.hotkey_save_fullscreen_enabled = false;
    let plan = hotkeys_to_register(&c);
    assert_eq!(plan, (Some(Hotkey::print_screen_default()), None));
    assert!(!registration_failed(plan, true, false));
    assert!(registration_failed(plan, false, true));
    assert_eq!(registration_modifiers(&Hotkey::ctrl_shift_s()), 0x4006);
}

#[test]
fn numbered_names_and_claiming() {
    assert_eq!(numbered_file_name("fixed_name", 1, "png"), "fixed_name_1.png");
    assert_eq!(numbered_file_name("shot", 42, "jpg"), "shot_42.jpg");
    assert_eq!(claim_step(0, CreateOutcome::Created), ClaimStep::Claimed);
    assert_eq!(claim_step(0, CreateOutcome::AlreadyExists), ClaimStep::Next(1));
    assert_eq!(claim_step(998, CreateOutcome::AlreadyExists), ClaimStep::Next(999));
    assert_eq!(claim_step(999, CreateOutcome::AlreadyExists), ClaimStep::Exhausted);
    assert_eq!(claim_step(3, CreateOutcome::Failed), ClaimStep::Fail);
}

#[test]
fn lock_file_names_are_sanitised() {
    assert_eq!(lock_file_name("Local\\ZenShotCapture"), "zenshot-Local_ZenShotCapture.lock");
    assert_eq!(lock_file_name("a.b-c d/é"), "zenshot-a.b-c_d__.lock");
}

#[test]
fn gdi_pixels_become_rgba() {
    assert_eq!(bgrx_to_rgba(&[0x0011_2233, 0xAABB_CCDD]), vec![0x11, 0x22, 0x33, 255, 0xBB, 0xCC, 0xDD, 255]);
}

#[test]
fn portal_request_path_from_unique_name() {
    assert_eq!(
        portal_request_path(":1.234", "zenshot_7_9"),
        "/org/freedesktop/portal/desktop/request/1_234/zenshot_7_9"
    );
    assert_eq!(portal_token(7, 1234567890123), "zenshot_7_1234567890123");
    assert_eq!(parent_window(true), "wayland:");
    assert_eq!(parent_window(false), "x11:");
    assert!(retry_after_failure(1));
    assert!(!retry_after_failure(2));
}

#[test]
fn portal_responses() {
    assert_eq!(portal_image_path(2, PortalUri::Missing).unwrap_err(), "Screenshot portal cancelled or failed (code 2)");
    assert_eq!(portal_image_path(0, PortalUri::Missing).unwrap_err(), "No URI returned in portal response");
    assert_eq!(portal_image_path(0, PortalUri::NotText).unwrap_err(), "Invalid URI format in portal response");
    assert!(portal_image_path(0, PortalUri::Text("not a uri".into())).unwrap_err().starts_with("Invalid URI 'not a uri': "));
    let ok = portal_image_path(0, PortalUri::Text("file:///tmp/shot%201.png".into())).unwrap();
    assert_eq!(ok, std::path::PathBuf::from("/tmp/shot 1.png"));
    assert_eq!(
        portal_image_path(0, PortalUri::Text("https://example.com/a.png".into())).unwrap_err(),
        "URI is not a valid local path: https://example.com/a.png"
    );
}

#[test]
fn collision_gets_numeric_suffix_instead_of_overwrite() {
    // First save: the plain name is free.
    assert_eq!(claim_step(0, CreateOutcome::Created), ClaimStep::Claimed);
    // Second save: the plain name is taken, the first numbered name is free.
    let next = claim_step(0, CreateOutcome::AlreadyExists);
    assert_eq!(next, ClaimStep::Next(1));
    assert_eq!(numbered_file_name("fixed_name", 1, "png"), "fixed_name_1.png");
    assert_eq!(claim_step(1, CreateOutcome::Created), ClaimStep::Claimed);
}

#[test]
fn claim_unique_path_skips_existing() {
    // `shot.png` exists already.
    match claim_step(0, CreateOutcome::AlreadyExists) {
        ClaimStep::Next(n) => assert_eq!(numbered_file_name("shot", n, "png"), "shot_1.png"),
        other => panic!("unexpected step {other:?}"),
    }
}

#[test]
fn copydata_notifications_arrive_as_sent() {
    for body in ["Screenshot is saved to /tmp/a.png. Click to open the folder.", "ünïcødé 😀", ""] {
        let payload = wide(body);
        assert_eq!(copydata_text_units((payload.len() * 2) as u32), body.encode_utf16().count());
        assert_eq!(copydata_text(&payload), body);
    }
    assert_eq!(copydata_text(&[]), "");
    // An unpaired surrogate is replaced, not dropped.
    assert_eq!(copydata_text(&[0x41, 0xD800, 0]), "A\u{FFFD}");
}
