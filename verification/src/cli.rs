//! Command-line mode selection.
use vstd::prelude::*;
use crate::text::{starts_with_char, str_eq};

verus! {

/// Hidden argument the Linux clipboard holder is started with. Not shown in
/// `--help`.
pub const CLIPBOARD_SERVE_ARG: &'static str = "--internal-clipboard-serve";

/// The operating system family the binary was built for; it decides the
/// default mode and whether the clipboard holder exists.
#[derive(Debug, Clone, Copy, PartialEq, Eq, Structural)]
pub enum Platform {
    Windows,
    Linux,
    Other,
}

#[derive(Debug, Clone, Copy, PartialEq, Eq, Structural)]
pub enum Mode {
    Capture,
    Daemon,
    Options,
    SaveFullscreen,
    PrintConfig,
    Help,
    Version,
    SetAutostart(bool),
    ClipboardServe,
    /// An option nobody recognises, by its position in the arguments: it is
    /// reported, then the help is shown.
    UnknownOption(usize),
}

pub open spec fn has_arg(args: Seq<Seq<char>>, a: Seq<char>) -> bool {
    exists|i: int| 0 <= i < args.len() && #[trigger] args[i] == a
}

pub open spec fn is_dashed(arg: Seq<char>) -> bool {
    arg.len() > 0 && arg[0] == '-'
}

/// Position of the first argument at or after `i` that starts with `-`.
pub open spec fn first_dashed_from(args: Seq<Seq<char>>, i: int) -> Option<int>
    decreases args.len() - i,
{
    if i < 0 || i >= args.len() {
        None
    } else if is_dashed(args[i]) {
        Some(i)
    } else {
        first_dashed_from(args, i + 1)
    }
}

/// The mode the arguments select. Earlier rules win over later ones, so
/// `--help` beats everything except the clipboard holder's own argument.
pub open spec fn mode_of(args: Seq<Seq<char>>, platform: Platform) -> Mode {
    if platform == Platform::Linux && args.len() > 0 && args[0] == CLIPBOARD_SERVE_ARG@ {
        Mode::ClipboardServe
    } else if has_arg(args, "--help"@) || has_arg(args, "-h"@) {
        Mode::Help
    } else if has_arg(args, "--version"@) || has_arg(args, "-V"@) {
        Mode::Version
    } else if has_arg(args, "--config"@) {
        Mode::PrintConfig
    } else if has_arg(args, "--options"@) || has_arg(args, "-o"@) {
        Mode::Options
    } else if has_arg(args, "--enable-autostart"@) {
        Mode::SetAutostart(true)
    } else if has_arg(args, "--disable-autostart"@) {
        Mode::SetAutostart(false)
    } else if has_arg(args, "--daemon"@) {
        Mode::Daemon
    } else if has_arg(args, "--save-fullscreen"@) {
        Mode::SaveFullscreen
    } else if has_arg(args, "--capture"@) || has_arg(args, "-c"@) {
        Mode::Capture
    } else if first_dashed_from(args, 0) is Some {
        Mode::UnknownOption(first_dashed_from(args, 0)->0 as usize)
    } else if platform == Platform::Windows {
        Mode::Daemon
    } else {
        Mode::Capture
    }
}

/// The `--help` text for `version`: the options, what happens without
/// arguments on this platform, and the overlay's shortcuts.
pub open spec fn help_text_of(version: Seq<char>, platform: Platform) -> Seq<char> {
    "ZenShot "@ + version + " \u{2014} featherlight screen capture\n\nUsage: zenshot [OPTIONS]\n\nOptions:\n  --capture, -c       Open the region-select overlay\n  --options, -o       Open the settings window\n  --save-fullscreen   Capture the whole screen and save\n  --daemon            Stay in the tray (Windows)\n  --enable-autostart  Start with Windows, then stay in the tray\n  --disable-autostart Do not start with Windows, then stay in the tray\n  --config            Print the configuration file path\n  -V, --version       Print version\n  -h, --help          Show this help\n\n"@
        + (if platform == Platform::Windows { "With no arguments on Windows, ZenShot starts in the tray.\nPrint Screen (or the hotkey in Options) opens the overlay.\n"@ } else { "With no arguments on Linux, ZenShot opens the overlay.\nBind Ctrl+Shift+S in your desktop settings to `zenshot`.\n"@ })
        + "\nShortcuts inside overlay:\n  Ctrl+A      Select the full screen\n  Ctrl+C      Copy selection to clipboard & exit\n  Ctrl+S      Save screenshot & exit\n  Ctrl+P      Print selection & exit\n  Ctrl+Z      Undo last annotation\n  Ctrl+X / Esc  Close without saving\n"@
}

pub fn help_text(version: &str, platform: Platform) -> (text: String)
    ensures
        text@ == help_text_of(version@, platform),
{
    let mut text = String::from_str("ZenShot ");
    text.append(version);
    text.append(" \u{2014} featherlight screen capture\n\nUsage: zenshot [OPTIONS]\n\nOptions:\n  --capture, -c       Open the region-select overlay\n  --options, -o       Open the settings window\n  --save-fullscreen   Capture the whole screen and save\n  --daemon            Stay in the tray (Windows)\n  --enable-autostart  Start with Windows, then stay in the tray\n  --disable-autostart Do not start with Windows, then stay in the tray\n  --config            Print the configuration file path\n  -V, --version       Print version\n  -h, --help          Show this help\n\n");
    if platform == Platform::Windows {
        text.append("With no arguments on Windows, ZenShot starts in the tray.\nPrint Screen (or the hotkey in Options) opens the overlay.\n");
    } else {
        text.append("With no arguments on Linux, ZenShot opens the overlay.\nBind Ctrl+Shift+S in your desktop settings to `zenshot`.\n");
    }
    text.append("\nShortcuts inside overlay:\n  Ctrl+A      Select the full screen\n  Ctrl+C      Copy selection to clipboard & exit\n  Ctrl+S      Save screenshot & exit\n  Ctrl+P      Print selection & exit\n  Ctrl+Z      Undo last annotation\n  Ctrl+X / Esc  Close without saving\n");
    text
}

pub open spec fn arg_views(args: Seq<String>) -> Seq<Seq<char>> {
    args.map_values(|a: String| a@)
}

fn contains_arg(args: &Vec<String>, a: &str) -> (found: bool)
    ensures
        found == has_arg(arg_views(args@), a@),
{
    let mut i: usize = 0;
    while i < args.len()
        invariant
            i <= args@.len(),
            forall|k: int| 0 <= k < i ==> args@[k]@ != a@,
        decreases args@.len() - i,
    {
        if str_eq(args[i].as_str(), a) {
            proof {
                assert(arg_views(args@)[i as int] == a@);
            }
            return true;
        }
        i = i + 1;
    }
    proof {
        if has_arg(arg_views(args@), a@) {
            let k = choose|k: int| 0 <= k < arg_views(args@).len() && #[trigger] arg_views(args@)[k] == a@;
            assert(args@[k]@ == a@);
        }
    }
    false
}

fn first_dashed(args: &Vec<String>) -> (pos: Option<usize>)
    ensures
        match first_dashed_from(arg_views(args@), 0) {
            Some(i) => pos == Some(i as usize),
            None => pos is None,
        },
{
    let ghost views = arg_views(args@);
    let mut i: usize = 0;
    while i < args.len()
        invariant
            i <= args@.len(),
            views == arg_views(args@),
            first_dashed_from(views, 0) == first_dashed_from(views, i as int),
        decreases args@.len() - i,
    {
        if starts_with_char(args[i].as_str(), '-') {
            return Some(i);
        }
        i = i + 1;
    }
    None
}

impl Mode {
    /// Picks the mode from the command-line arguments (program name
    /// excluded).
    pub fn from_args(args: &Vec<String>, platform: Platform) -> (m: Mode)
        ensures
            m == mode_of(arg_views(args@), platform),
    {
        let ghost views = arg_views(args@);
        if platform == Platform::Linux && args.len() > 0 && str_eq(args[0].as_str(), CLIPBOARD_SERVE_ARG) {
            return Mode::ClipboardServe;
        }
        proof {
            if platform == Platform::Linux && args.len() > 0 {
                assert(views[0] == args@[0]@);
            }
        }
        if contains_arg(args, "--help") || contains_arg(args, "-h") {
            return Mode::Help;
        }
        if contains_arg(args, "--version") || contains_arg(args, "-V") {
            return Mode::Version;
        }
        if contains_arg(args, "--config") {
            return Mode::PrintConfig;
        }
        if contains_arg(args, "--options") || contains_arg(args, "-o") {
            return Mode::Options;
        }
        if contains_arg(args, "--enable-autostart") {
            return Mode::SetAutostart(true);
        }
        if contains_arg(args, "--disable-autostart") {
            return Mode::SetAutostart(false);
        }
        if contains_arg(args, "--daemon") {
            return Mode::Daemon;
        }
        if contains_arg(args, "--save-fullscreen") {
            return Mode::SaveFullscreen;
        }
        if contains_arg(args, "--capture") || contains_arg(args, "-c") {
            return Mode::Capture;
        }
        if let Some(i) = first_dashed(args) {
            return Mode::UnknownOption(i);
        }
        if platform == Platform::Windows {
            Mode::Daemon
        } else {
            Mode::Capture
        }
    }
}

/// `--help` (or `-h`) anywhere shows the help, whatever else is given, unless
/// the binary was started as the Linux clipboard holder.
pub proof fn lemma_help_wins(args: Seq<Seq<char>>, platform: Platform)
    requires
        has_arg(args, "--help"@) || has_arg(args, "-h"@),
        !(platform == Platform::Linux && args.len() > 0 && args[0] == CLIPBOARD_SERVE_ARG@),
    ensures
        mode_of(args, platform) == Mode::Help,
{
}

/// Without arguments Windows starts the tray daemon and other systems open
/// the capture overlay.
pub proof fn lemma_no_arguments(platform: Platform)
    ensures
        mode_of(Seq::empty(), platform) == (if platform == Platform::Windows {
            Mode::Daemon
        } else {
            Mode::Capture
        }),
{
    assert(first_dashed_from(Seq::<Seq<char>>::empty(), 0) is None);
}

/// Each option that `--help` lists selects its own mode when it is the only
/// argument, on every platform.
pub proof fn lemma_documented_options(platform: Platform)
    ensures
        mode_of(seq!["--capture"@], platform) == Mode::Capture,
        mode_of(seq!["-c"@], platform) == Mode::Capture,
        mode_of(seq!["--options"@], platform) == Mode::Options,
        mode_of(seq!["-o"@], platform) == Mode::Options,
        mode_of(seq!["--save-fullscreen"@], platform) == Mode::SaveFullscreen,
        mode_of(seq!["--daemon"@], platform) == Mode::Daemon,
        mode_of(seq!["--enable-autostart"@], platform) == Mode::SetAutostart(true),
        mode_of(seq!["--disable-autostart"@], platform) == Mode::SetAutostart(false),
        mode_of(seq!["--config"@], platform) == Mode::PrintConfig,
        mode_of(seq!["--version"@], platform) == Mode::Version,
        mode_of(seq!["-V"@], platform) == Mode::Version,
        mode_of(seq!["--help"@], platform) == Mode::Help,
        mode_of(seq!["-h"@], platform) == Mode::Help,
{
    lemma_option_spellings_are_distinct();
    assert(mode_of(seq!["--capture"@], platform) == Mode::Capture) by {
        lemma_alone_selects(seq!["--capture"@], platform);
    }
    assert(mode_of(seq!["-c"@], platform) == Mode::Capture) by {
        lemma_alone_selects(seq!["-c"@], platform);
    }
    assert(mode_of(seq!["--options"@], platform) == Mode::Options) by {
        lemma_alone_selects(seq!["--options"@], platform);
    }
    assert(mode_of(seq!["-o"@], platform) == Mode::Options) by {
        lemma_alone_selects(seq!["-o"@], platform);
    }
    assert(mode_of(seq!["--save-fullscreen"@], platform) == Mode::SaveFullscreen) by {
        lemma_alone_selects(seq!["--save-fullscreen"@], platform);
    }
    assert(mode_of(seq!["--daemon"@], platform) == Mode::Daemon) by {
        lemma_alone_selects(seq!["--daemon"@], platform);
    }
    assert(mode_of(seq!["--enable-autostart"@], platform) == Mode::SetAutostart(true)) by {
        lemma_alone_selects(seq!["--enable-autostart"@], platform);
    }
    assert(mode_of(seq!["--disable-autostart"@], platform) == Mode::SetAutostart(false)) by {
        lemma_alone_selects(seq!["--disable-autostart"@], platform);
    }
    assert(mode_of(seq!["--config"@], platform) == Mode::PrintConfig) by {
        lemma_alone_selects(seq!["--config"@], platform);
    }
    assert(mode_of(seq!["--version"@], platform) == Mode::Version) by {
        lemma_alone_selects(seq!["--version"@], platform);
    }
    assert(mode_of(seq!["-V"@], platform) == Mode::Version) by {
        lemma_alone_selects(seq!["-V"@], platform);
    }
    assert(mode_of(seq!["--help"@], platform) == Mode::Help) by {
        lemma_alone_selects(seq!["--help"@], platform);
    }
    assert(mode_of(seq!["-h"@], platform) == Mode::Help) by {
        lemma_alone_selects(seq!["-h"@], platform);
    }
}

/// `--capture` or `-c` opens the overlay whatever plain (undashed) words
/// stand beside it, however often either is repeated.
pub proof fn lemma_capture_with_plain_args(args: Seq<Seq<char>>, platform: Platform)
    requires
        has_arg(args, "--capture"@) || has_arg(args, "-c"@),
        forall|i: int| 0 <= i < args.len() ==> #[trigger] args[i] == "--capture"@ || args[i] == "-c"@ || !is_dashed(args[i]),
    ensures
        mode_of(args, platform) == Mode::Capture,
{
    reveal_strlit("--internal-clipboard-serve");
    reveal_strlit("--capture");
    reveal_strlit("-c");
    reveal_strlit("--options");
    reveal_strlit("-o");
    reveal_strlit("--save-fullscreen");
    reveal_strlit("--daemon");
    reveal_strlit("--enable-autostart");
    reveal_strlit("--disable-autostart");
    reveal_strlit("--config");
    reveal_strlit("--version");
    reveal_strlit("-V");
    reveal_strlit("--help");
    reveal_strlit("-h");
    lemma_option_spellings_are_distinct();
    if args.len() > 0 {
        assert(args[0] != CLIPBOARD_SERVE_ARG@);
    }
}

/// No two of the options the arguments are matched against are spelled
/// alike.
proof fn lemma_option_spellings_are_distinct()
    ensures
        "--capture"@ != "-c"@,
        "--capture"@ != "--help"@,
        "--capture"@ != "-h"@,
        "--capture"@ != "--version"@,
        "--capture"@ != "-V"@,
        "--capture"@ != "--config"@,
        "--capture"@ != "--options"@,
        "--capture"@ != "-o"@,
        "--capture"@ != "--enable-autostart"@,
        "--capture"@ != "--disable-autostart"@,
        "--capture"@ != "--daemon"@,
        "--capture"@ != "--save-fullscreen"@,
        "--capture"@ != "--internal-clipboard-serve"@,
        "-c"@ != "--help"@,
        "-c"@ != "-h"@,
        "-c"@ != "--version"@,
        "-c"@ != "-V"@,
        "-c"@ != "--config"@,
        "-c"@ != "--options"@,
        "-c"@ != "-o"@,
        "-c"@ != "--enable-autostart"@,
        "-c"@ != "--disable-autostart"@,
        "-c"@ != "--daemon"@,
        "-c"@ != "--save-fullscreen"@,
        "-c"@ != "--internal-clipboard-serve"@,
        "--help"@ != "-h"@,
        "--help"@ != "--version"@,
        "--help"@ != "-V"@,
        "--help"@ != "--config"@,
        "--help"@ != "--options"@,
        "--help"@ != "-o"@,
        "--help"@ != "--enable-autostart"@,
        "--help"@ != "--disable-autostart"@,
        "--help"@ != "--daemon"@,
        "--help"@ != "--save-fullscreen"@,
        "--help"@ != "--internal-clipboard-serve"@,
        "-h"@ != "--version"@,
        "-h"@ != "-V"@,
        "-h"@ != "--config"@,
        "-h"@ != "--options"@,
        "-h"@ != "-o"@,
        "-h"@ != "--enable-autostart"@,
        "-h"@ != "--disable-autostart"@,
        "-h"@ != "--daemon"@,
        "-h"@ != "--save-fullscreen"@,
        "-h"@ != "--internal-clipboard-serve"@,
        "--version"@ != "-V"@,
        "--version"@ != "--config"@,
        "--version"@ != "--options"@,
        "--version"@ != "-o"@,
        "--version"@ != "--enable-autostart"@,
        "--version"@ != "--disable-autostart"@,
        "--version"@ != "--daemon"@,
        "--version"@ != "--save-fullscreen"@,
        "--version"@ != "--internal-clipboard-serve"@,
        "-V"@ != "--config"@,
        "-V"@ != "--options"@,
        "-V"@ != "-o"@,
        "-V"@ != "--enable-autostart"@,
        "-V"@ != "--disable-autostart"@,
        "-V"@ != "--daemon"@,
        "-V"@ != "--save-fullscreen"@,
        "-V"@ != "--internal-clipboard-serve"@,
        "--config"@ != "--options"@,
        "--config"@ != "-o"@,
        "--config"@ != "--enable-autostart"@,
        "--config"@ != "--disable-autostart"@,
        "--config"@ != "--daemon"@,
        "--config"@ != "--save-fullscreen"@,
        "--config"@ != "--internal-clipboard-serve"@,
        "--options"@ != "-o"@,
        "--options"@ != "--enable-autostart"@,
        "--options"@ != "--disable-autostart"@,
        "--options"@ != "--daemon"@,
        "--options"@ != "--save-fullscreen"@,
        "--options"@ != "--internal-clipboard-serve"@,
        "-o"@ != "--enable-autostart"@,
        "-o"@ != "--disable-autostart"@,
        "-o"@ != "--daemon"@,
        "-o"@ != "--save-fullscreen"@,
        "-o"@ != "--internal-clipboard-serve"@,
        "--enable-autostart"@ != "--disable-autostart"@,
        "--enable-autostart"@ != "--daemon"@,
        "--enable-autostart"@ != "--save-fullscreen"@,
        "--enable-autostart"@ != "--internal-clipboard-serve"@,
        "--disable-autostart"@ != "--daemon"@,
        "--disable-autostart"@ != "--save-fullscreen"@,
        "--disable-autostart"@ != "--internal-clipboard-serve"@,
        "--daemon"@ != "--save-fullscreen"@,
        "--daemon"@ != "--internal-clipboard-serve"@,
        "--save-fullscreen"@ != "--internal-clipboard-serve"@,
{
    reveal_strlit("--capture");
    reveal_strlit("-c");
    reveal_strlit("--help");
    reveal_strlit("-h");
    reveal_strlit("--version");
    reveal_strlit("-V");
    reveal_strlit("--config");
    reveal_strlit("--options");
    reveal_strlit("-o");
    reveal_strlit("--enable-autostart");
    reveal_strlit("--disable-autostart");
    reveal_strlit("--daemon");
    reveal_strlit("--save-fullscreen");
    reveal_strlit("--internal-clipboard-serve");
    assert("--capture"@.len() != "-c"@.len());
    assert("--capture"@.len() != "--help"@.len());
    assert("--capture"@.len() != "-h"@.len());
    assert("--capture"@[2] != "--version"@[2]);
    assert("--capture"@.len() != "-V"@.len());
    assert("--capture"@.len() != "--config"@.len());
    assert("--capture"@[2] != "--options"@[2]);
    assert("--capture"@.len() != "-o"@.len());
    assert("--capture"@.len() != "--enable-autostart"@.len());
    assert("--capture"@.len() != "--disable-autostart"@.len());
    assert("--capture"@.len() != "--daemon"@.len());
    assert("--capture"@.len() != "--save-fullscreen"@.len());
    assert("--capture"@.len() != "--internal-clipboard-serve"@.len());
    assert("-c"@.len() != "--help"@.len());
    assert("-c"@[1] != "-h"@[1]);
    assert("-c"@.len() != "--version"@.len());
    assert("-c"@[1] != "-V"@[1]);
    assert("-c"@.len() != "--config"@.len());
    assert("-c"@.len() != "--options"@.len());
    assert("-c"@[1] != "-o"@[1]);
    assert("-c"@.len() != "--enable-autostart"@.len());
    assert("-c"@.len() != "--disable-autostart"@.len());
    assert("-c"@.len() != "--daemon"@.len());
    assert("-c"@.len() != "--save-fullscreen"@.len());
    assert("-c"@.len() != "--internal-clipboard-serve"@.len());
    assert("--help"@.len() != "-h"@.len());
    assert("--help"@.len() != "--version"@.len());
    assert("--help"@.len() != "-V"@.len());
    assert("--help"@.len() != "--config"@.len());
    assert("--help"@.len() != "--options"@.len());
    assert("--help"@.len() != "-o"@.len());
    assert("--help"@.len() != "--enable-autostart"@.len());
    assert("--help"@.len() != "--disable-autostart"@.len());
    assert("--help"@.len() != "--daemon"@.len());
    assert("--help"@.len() != "--save-fullscreen"@.len());
    assert("--help"@.len() != "--internal-clipboard-serve"@.len());
    assert("-h"@.len() != "--version"@.len());
    assert("-h"@[1] != "-V"@[1]);
    assert("-h"@.len() != "--config"@.len());
    assert("-h"@.len() != "--options"@.len());
    assert("-h"@[1] != "-o"@[1]);
    assert("-h"@.len() != "--enable-autostart"@.len());
    assert("-h"@.len() != "--disable-autostart"@.len());
    assert("-h"@.len() != "--daemon"@.len());
    assert("-h"@.len() != "--save-fullscreen"@.len());
    assert("-h"@.len() != "--internal-clipboard-serve"@.len());
    assert("--version"@.len() != "-V"@.len());
    assert("--version"@.len() != "--config"@.len());
    assert("--version"@[2] != "--options"@[2]);
    assert("--version"@.len() != "-o"@.len());
    assert("--version"@.len() != "--enable-autostart"@.len());
    assert("--version"@.len() != "--disable-autostart"@.len());
    assert("--version"@.len() != "--daemon"@.len());
    assert("--version"@.len() != "--save-fullscreen"@.len());
    assert("--version"@.len() != "--internal-clipboard-serve"@.len());
    assert("-V"@.len() != "--config"@.len());
    assert("-V"@.len() != "--options"@.len());
    assert("-V"@[1] != "-o"@[1]);
    assert("-V"@.len() != "--enable-autostart"@.len());
    assert("-V"@.len() != "--disable-autostart"@.len());
    assert("-V"@.len() != "--daemon"@.len());
    assert("-V"@.len() != "--save-fullscreen"@.len());
    assert("-V"@.len() != "--internal-clipboard-serve"@.len());
    assert("--config"@.len() != "--options"@.len());
    assert("--config"@.len() != "-o"@.len());
    assert("--config"@.len() != "--enable-autostart"@.len());
    assert("--config"@.len() != "--disable-autostart"@.len());
    assert("--config"@[2] != "--daemon"@[2]);
    assert("--config"@.len() != "--save-fullscreen"@.len());
    assert("--config"@.len() != "--internal-clipboard-serve"@.len());
    assert("--options"@.len() != "-o"@.len());
    assert("--options"@.len() != "--enable-autostart"@.len());
    assert("--options"@.len() != "--disable-autostart"@.len());
    assert("--options"@.len() != "--daemon"@.len());
    assert("--options"@.len() != "--save-fullscreen"@.len());
    assert("--options"@.len() != "--internal-clipboard-serve"@.len());
    assert("-o"@.len() != "--enable-autostart"@.len());
    assert("-o"@.len() != "--disable-autostart"@.len());
    assert("-o"@.len() != "--daemon"@.len());
    assert("-o"@.len() != "--save-fullscreen"@.len());
    assert("-o"@.len() != "--internal-clipboard-serve"@.len());
    assert("--enable-autostart"@.len() != "--disable-autostart"@.len());
    assert("--enable-autostart"@.len() != "--daemon"@.len());
    assert("--enable-autostart"@.len() != "--save-fullscreen"@.len());
    assert("--enable-autostart"@.len() != "--internal-clipboard-serve"@.len());
    assert("--disable-autostart"@.len() != "--daemon"@.len());
    assert("--disable-autostart"@.len() != "--save-fullscreen"@.len());
    assert("--disable-autostart"@.len() != "--internal-clipboard-serve"@.len());
    assert("--daemon"@.len() != "--save-fullscreen"@.len());
    assert("--daemon"@.len() != "--internal-clipboard-serve"@.len());
    assert("--save-fullscreen"@.len() != "--internal-clipboard-serve"@.len());
}

/// A one-word argument list holds exactly that word.
proof fn lemma_alone_selects(args: Seq<Seq<char>>, platform: Platform)
    requires
        args.len() == 1,
    ensures
        forall|a: Seq<char>| has_arg(args, a) <==> args[0] == a,
{
    assert forall|a: Seq<char>| has_arg(args, a) implies args[0] == a by {
        let i = choose|i: int| 0 <= i < args.len() && #[trigger] args[i] == a;
    }
    assert forall|a: Seq<char>| args[0] == a implies has_arg(args, a) by {
        assert(args[0] == a);
    }
}

} // verus!
