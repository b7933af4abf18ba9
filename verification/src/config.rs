//! Settings the rest of ZenShot reads, their defaults, and how the save
//! directory and the configuration file are located.
use vstd::prelude::*;
use crate::hotkey::Hotkey;
use crate::text::str_eq;

verus! {

/// Image codec written when the user hits Save.
#[derive(Debug, Clone, Copy, PartialEq, Eq, Structural)]
pub enum OutputFormat {
    Png,
    Jpeg,
}

impl OutputFormat {
    /// File extension written for the format.
    pub fn extension(self) -> (ext: &'static str)
        ensures
            ext@ == (match self {
                OutputFormat::Png => "png"@,
                OutputFormat::Jpeg => "jpg"@,
            }),
    {
        match self {
            OutputFormat::Png => "png",
            OutputFormat::Jpeg => "jpg",
        }
    }

    /// Name shown in the format picker.
    pub fn label(self) -> (name: &'static str)
        ensures
            name@ == (match self {
                OutputFormat::Png => "PNG"@,
                OutputFormat::Jpeg => "JPEG"@,
            }),
    {
        match self {
            OutputFormat::Png => "PNG",
            OutputFormat::Jpeg => "JPEG",
        }
    }
}

/// Default for the on/off settings that start enabled.
pub fn default_true() -> (b: bool)
    ensures
        b,
{
    true
}

/// Default JPEG quality.
pub fn default_jpeg_quality() -> (q: u8)
    ensures
        q == 90,
{
    90
}

/// Where a path starts: configured text, or a directory the system reported
/// (kept as the system gave it, whatever its encoding).
#[derive(Debug)]
pub enum PathBase {
    Text(String),
    Dir(std::path::PathBuf),
}

/// A path given as a base plus components to append to it.
#[derive(Debug)]
pub struct PathSpec {
    pub base: PathBase,
    pub parts: Vec<String>,
}

/// `PathBase` with its text as characters.
pub enum BaseView {
    Text(Seq<char>),
    Dir(std::path::PathBuf),
}

/// The settings ZenShot's logic reads. The stroke thickness and the last
/// selection rectangle are fractional screen measures and live beside this,
/// in the stored configuration file.
#[derive(Debug, Clone)]
pub struct Config {
    pub save_dir: String,
    pub filename_format: String,
    pub stroke_color: [u8; 3],
    /// Launch the tray when Windows starts. Ignored on Linux.
    pub autostart: bool,
    /// Balloon / notify-send after copy or save.
    pub show_notifications: bool,
    /// Draw the mouse pointer onto the captured bitmap.
    pub capture_cursor: bool,
    /// Restore the last selection rectangle the next time the overlay opens.
    pub keep_selection: bool,
    pub output_format: OutputFormat,
    pub jpeg_quality: u8,
    pub hotkey_capture: Hotkey,
    pub hotkey_capture_enabled: bool,
    pub hotkey_save_fullscreen: Hotkey,
    pub hotkey_save_fullscreen_enabled: bool,
}

/// Save directory used when the system does not report a pictures folder.
pub open spec fn fallback_save_dir() -> Seq<char> {
    "~/Pictures/Screenshots"@
}

pub open spec fn default_filename_format() -> Seq<char> {
    "ZenShot_%Y-%m-%d_%H-%M-%S.png"@
}

/// A JPEG quality setting brought into 10..=100.
pub open spec fn clamped_quality(q: u8) -> u8 {
    if q < 10 {
        10
    } else if q > 100 {
        100
    } else {
        q
    }
}

/// Every default setting other than the save directory.
pub open spec fn is_default_except_save_dir(c: Config) -> bool {
    &&& c.filename_format@ == default_filename_format()
    &&& c.stroke_color@ == seq![239u8, 68u8, 68u8]
    &&& c.autostart
    &&& c.show_notifications
    &&& !c.capture_cursor
    &&& !c.keep_selection
    &&& c.output_format == OutputFormat::Png
    &&& c.jpeg_quality == 90
    &&& c.hotkey_capture == Hotkey { ctrl: false, alt: false, shift: false, win: false, vk: 0x2C }
    &&& c.hotkey_capture_enabled
    &&& c.hotkey_save_fullscreen == Hotkey { ctrl: true, alt: true, shift: false, win: false, vk: 0x53 }
    &&& c.hotkey_save_fullscreen_enabled
}

/// How a configured path relates to the home directory.
pub open spec fn home_path(path: Seq<char>, home: Option<std::path::PathBuf>) -> (BaseView, Seq<Seq<char>>) {
    if path == "~"@ {
        match home {
            Some(h) => (BaseView::Dir(h), Seq::empty()),
            None => (BaseView::Text("~"@), Seq::empty()),
        }
    } else if path.len() >= 2 && path[0] == '~' && (path[1] == '/' || path[1] == '\\') && home is Some {
        (BaseView::Dir(home->0), seq![path.subrange(2, path.len() as int)])
    } else {
        (BaseView::Text(path), Seq::empty())
    }
}

pub open spec fn opt_view(o: Option<String>) -> Option<Seq<char>> {
    match o {
        Some(h) => Some(h@),
        None => None,
    }
}

pub open spec fn base_view(b: PathBase) -> BaseView {
    match b {
        PathBase::Text(t) => BaseView::Text(t@),
        PathBase::Dir(d) => BaseView::Dir(d),
    }
}

pub open spec fn path_view(p: PathSpec) -> (BaseView, Seq<Seq<char>>) {
    (base_view(p.base), p.parts@.map_values(|s: String| s@))
}

/// The user's home directory.
///
/// Trusted: calls `dirs::home_dir`, which reads the environment and the
/// system's user database, so nothing is stated of what it returns.
#[verifier::external_body]
fn home_dir() -> Option<std::path::PathBuf> {
    dirs::home_dir()
}

/// The user's configuration directory.
///
/// Trusted: calls `dirs::config_dir`, which depends on the environment and
/// platform, so nothing is stated of what it returns.
#[verifier::external_body]
pub(crate) fn config_dir() -> Option<std::path::PathBuf> {
    dirs::config_dir()
}

/// The user's pictures directory.
///
/// Trusted: calls `dirs::picture_dir`, which depends on the environment and
/// platform, so nothing is stated of what it returns. The path is turned into
/// text lossily.
#[verifier::external_body]
fn picture_dir() -> Option<String> {
    dirs::picture_dir().map(|p| p.to_string_lossy().into_owned())
}

/// A path component that is relative on every platform: ASCII letters and
/// digits only.
pub open spec fn plain_component(part: Seq<char>) -> bool {
    &&& part.len() > 0
    &&& forall|i: int| 0 <= i < part.len() ==> {
        let c = #[trigger] part[i];
        ('0' <= c <= '9') || ('a' <= c <= 'z') || ('A' <= c <= 'Z')
    }
}

/// `part` adjoined to `base`: appended directly, or after one path
/// separator.
pub open spec fn adjoined(base: Seq<char>, part: Seq<char>, joined: Seq<char>) -> bool {
    ||| joined == base + part
    ||| exists|sep: char| (sep == '/' || sep == '\\') && joined == base + seq![sep] + part
}

/// `base` with the relative component `part` appended.
///
/// Trusted: calls std's `Path::join`, documented to adjoin a relative path,
/// adding a separator if needed; the contract says the result is `base`
/// followed by `part`, with at most one separator (`/` or `\`) between
/// them. Which one depends on the platform and is left open.
#[verifier::external_body]
fn join_path(base: &str, part: &str) -> (joined: String)
    requires
        plain_component(part@),
    ensures
        adjoined(base@, part@, joined@),
{
    std::path::Path::new(base).join(part).to_string_lossy().into_owned()
}

fn string_of(s: &str) -> (r: String)
    ensures
        r@ == s@,
{
    String::from_str(s)
}

/// Expands a leading home reference against `home`: `~` alone is the home
/// directory, and `~/rest` or `~\rest` is `rest` inside it. A `~` followed by
/// anything else is left alone, so Windows drive-ish paths are not eaten.
pub fn expand_home_with(path: &str, home: Option<std::path::PathBuf>) -> (p: PathSpec)
    ensures
        path_view(p) == home_path(path@, home),
{
    if str_eq(path, "~") {
        let base = match home {
            Some(h) => PathBase::Dir(h),
            None => PathBase::Text(string_of("~")),
        };
        let p = PathSpec { base, parts: Vec::new() };
        proof {
            assert(p.parts@.map_values(|s: String| s@) =~= Seq::<Seq<char>>::empty());
        }
        return p;
    }
    let n = path.unicode_len();
    if n >= 2 && path.get_char(0) == '~' && (path.get_char(1) == '/' || path.get_char(1) == '\\') {
        if let Some(h) = home {
            let rest = string_of(path.substring_char(2, n));
            let mut parts: Vec<String> = Vec::new();
            parts.push(rest);
            let p = PathSpec { base: PathBase::Dir(h), parts };
            proof {
                assert(p.parts@.map_values(|s: String| s@) =~= seq![path@.subrange(2, path@.len() as int)]);
            }
            return p;
        }
    }
    let p = PathSpec { base: PathBase::Text(string_of(path)), parts: Vec::new() };
    proof {
        assert(p.parts@.map_values(|s: String| s@) =~= Seq::<Seq<char>>::empty());
    }
    p
}

/// Expands a leading home reference against the user's home directory,
/// whichever the system reports.
pub fn expand_home(path: &str) -> (p: PathSpec)
    ensures
        exists|home: Option<std::path::PathBuf>| path_view(p) == home_path(path@, home),
{
    let home = home_dir();
    let ghost seen = home;
    let p = expand_home_with(path, home);
    assert(path_view(p) == home_path(path@, seen));
    p
}

/// The settings file as a path: `zenshot/config.toml` inside `config_dir`.
pub fn config_path_in(config_dir: std::path::PathBuf) -> (p: PathSpec)
    ensures
        path_view(p) == (BaseView::Dir(config_dir), seq!["zenshot"@, "config.toml"@]),
{
    let mut parts: Vec<String> = Vec::new();
    parts.push(string_of("zenshot"));
    parts.push(string_of("config.toml"));
    let p = PathSpec { base: PathBase::Dir(config_dir), parts };
    proof {
        assert(p.parts@.map_values(|s: String| s@) =~= seq!["zenshot"@, "config.toml"@]);
    }
    p
}

/// Where screenshots go by default, given the pictures folder.
pub open spec fn default_save_dir(pictures: Option<Seq<char>>, dir: Seq<char>) -> bool {
    match pictures {
        Some(p) => adjoined(p, "Screenshots"@, dir),
        None => dir == fallback_save_dir(),
    }
}

/// The save directory used when none is configured yet: `Screenshots` in
/// the pictures folder, or `~/Pictures/Screenshots` without one.
pub fn default_save_dir_in(pictures: Option<String>) -> (dir: String)
    ensures
        default_save_dir(opt_view(pictures), dir@),
{
    match pictures {
        Some(p) => {
            proof {
                reveal_strlit("Screenshots");
                assert(plain_component("Screenshots"@));
            }
            join_path(p.as_str(), "Screenshots")
        },
        None => string_of("~/Pictures/Screenshots"),
    }
}

impl Config {
    /// The configuration file's path, if the system has a configuration
    /// directory.
    pub fn config_path() -> (p: Option<PathSpec>)
        ensures
            p matches Some(spec) ==> path_view(spec).1 == seq!["zenshot"@, "config.toml"@],
    {
        match config_dir() {
            Some(dir) => Some(config_path_in(dir)),
            None => None,
        }
    }

    /// Default settings with the given save directory.
    pub fn with_save_dir(save_dir: String) -> (c: Config)
        ensures
            c.save_dir == save_dir,
            is_default_except_save_dir(c),
    {
        let c = Config {
            save_dir,
            filename_format: string_of("ZenShot_%Y-%m-%d_%H-%M-%S.png"),
            stroke_color: [239, 68, 68],
            autostart: default_true(),
            show_notifications: default_true(),
            capture_cursor: false,
            keep_selection: false,
            output_format: OutputFormat::Png,
            jpeg_quality: default_jpeg_quality(),
            hotkey_capture: Hotkey::print_screen_default(),
            hotkey_capture_enabled: default_true(),
            hotkey_save_fullscreen: Hotkey::ctrl_alt_s(),
            hotkey_save_fullscreen_enabled: default_true(),
        };
        proof {
            assert(c.stroke_color@ =~= seq![239u8, 68u8, 68u8]);
        }
        c
    }

    /// JPEG quality clamped to 10..=100.
    pub fn jpeg_quality_clamped(&self) -> (q: u8)
        ensures
            q == clamped_quality(self.jpeg_quality),
    {
        if self.jpeg_quality < 10 {
            10
        } else if self.jpeg_quality > 100 {
            100
        } else {
            self.jpeg_quality
        }
    }

    /// The save directory with a leading home reference expanded.
    pub fn resolve_save_dir(&self) -> (p: PathSpec)
        ensures
            exists|home: Option<std::path::PathBuf>| path_view(p) == home_path(self.save_dir@, home),
    {
        expand_home(self.save_dir.as_str())
    }

    /// The save directory expanded against a known home directory.
    pub fn resolve_save_dir_with(&self, home: Option<std::path::PathBuf>) -> (p: PathSpec)
        ensures
            path_view(p) == home_path(self.save_dir@, home),
    {
        expand_home_with(self.save_dir.as_str(), home)
    }
}

impl Default for Config {
    fn default() -> (c: Config)
        ensures
            is_default_except_save_dir(c),
            exists|pictures: Option<Seq<char>>| default_save_dir(pictures, c.save_dir@),
    {
        let pictures = picture_dir();
        let ghost seen = opt_view(pictures);
        let c = Config::with_save_dir(default_save_dir_in(pictures));
        assert(default_save_dir(seen, c.save_dir@));
        c
    }
}

/// The clamped JPEG quality always lies in 10..=100, and settings already in
/// that range are kept as they are.
pub proof fn lemma_jpeg_quality_range(q: u8)
    ensures
        10 <= clamped_quality(q) <= 100,
        10 <= q <= 100 ==> clamped_quality(q) == q,
        clamped_quality(clamped_quality(q)) == clamped_quality(q),
{
}

/// `~/rest` and `~\rest` both mean `rest` inside the home directory, and a
/// path that does not start with a home reference is used as it is.
pub proof fn lemma_home_expansion(rest: Seq<char>, home: std::path::PathBuf)
    ensures
        home_path(seq!['~', '/'] + rest, Some(home)) == (BaseView::Dir(home), seq![rest]),
        home_path(seq!['~', '\\'] + rest, Some(home)) == (BaseView::Dir(home), seq![rest]),
        rest.len() > 0 && rest[0] != '~' ==> home_path(rest, Some(home)) == (BaseView::Text(rest), Seq::<Seq<char>>::empty()),
{
    reveal_strlit("~");
    let a = seq!['~', '/'] + rest;
    let b = seq!['~', '\\'] + rest;
    assert(a.subrange(2, a.len() as int) =~= rest);
    assert(b.subrange(2, b.len() as int) =~= rest);
    assert(a != "~"@) by {
        assert(a.len() != 1 || a[1] != '~');
        if a.len() == 1 {
            assert(a[1] == '/');
        }
    }
    assert(b != "~"@) by {
        assert(b[1] == '\\');
    }
    if rest.len() > 0 && rest[0] != '~' {
        assert(rest != "~"@);
    }
}

} // verus!
