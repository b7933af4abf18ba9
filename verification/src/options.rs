//! The Options window's rules for recording shortcuts.
use vstd::prelude::*;
use crate::config::Config;
use crate::hotkey::{display_label, Hotkey};

verus! {

/// Which shortcut the Options window is recording.
#[derive(Debug, Clone, Copy, PartialEq, Eq, Structural)]
pub enum ListenTarget {
    Capture,
    SaveFullscreen,
}

/// Whether the window is recording the shortcut of `target`.
pub fn matches_target(listening: Option<ListenTarget>, target: ListenTarget) -> (m: bool)
    ensures
        m == (listening == Some(target)),
{
    match listening {
        Some(t) => t == target,
        None => false,
    }
}

/// Caption of a shortcut field.
pub fn hotkey_caption(listening: Option<ListenTarget>, target: ListenTarget, hotkey: &Hotkey) -> (caption: String)
    ensures
        caption@ == (if listening == Some(target) { "Press a shortcut..."@ } else { display_label(*hotkey) }),
{
    if matches_target(listening, target) {
        String::from_str("Press a shortcut...")
    } else {
        hotkey.display()
    }
}

/// One frame of recording: Esc stops without a change, a recorded
/// combination is stored for the target and stops recording, otherwise
/// nothing happens.
pub fn record_step(config: &mut Config, listening: Option<ListenTarget>, escape: bool, recorded: Option<Hotkey>) -> (still: Option<ListenTarget>)
    ensures
        listening is None ==> still is None && *final(config) == *old(config),
        listening matches Some(target) ==> if escape {
            still is None && *final(config) == *old(config)
        } else if recorded is Some {
            &&& still is None
            &&& final(config).hotkey_capture == (if target == ListenTarget::Capture { recorded->0 } else { old(config).hotkey_capture })
            &&& final(config).hotkey_save_fullscreen == (if target == ListenTarget::SaveFullscreen { recorded->0 } else { old(config).hotkey_save_fullscreen })
            &&& *final(config) == (Config { hotkey_capture: final(config).hotkey_capture, hotkey_save_fullscreen: final(config).hotkey_save_fullscreen, ..*old(config) })
        } else {
            still == listening && *final(config) == *old(config)
        },
{
    match listening {
        None => None,
        Some(target) => {
            if escape {
                None
            } else if let Some(h) = recorded {
                match target {
                    ListenTarget::Capture => config.hotkey_capture = h,
                    ListenTarget::SaveFullscreen => config.hotkey_save_fullscreen = h,
                }
                None
            } else {
                listening
            }
        },
    }
}

/// "Use Print Screen": capture with plain Print Screen again and enable that
/// hotkey.
pub fn use_print_screen(config: &mut Config)
    ensures
        final(config).hotkey_capture == Hotkey::print_screen_spec(),
        final(config).hotkey_capture_enabled,
        *final(config) == (Config { hotkey_capture: final(config).hotkey_capture, hotkey_capture_enabled: true, ..*old(config) }),
{
    config.hotkey_capture = Hotkey::print_screen_default();
    config.hotkey_capture_enabled = true;
}

} // verus!
