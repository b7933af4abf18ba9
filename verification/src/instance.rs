//! Names of the single-instance locks of the tray daemon and the overlay.
use vstd::prelude::*;
use crate::text::push_char;

verus! {

/// Lock held by the capture overlay.
pub const CAPTURE_LOCK: &'static str = "Local\\ZenShotCapture";

/// Lock held by the tray daemon.
pub const DAEMON_LOCK: &'static str = "Local\\ZenShotDaemon";

/// Characters a lock file name keeps; every other one becomes `_`.
pub open spec fn is_safe_file_char(c: char) -> bool {
    ('0' <= c <= '9') || ('a' <= c <= 'z') || ('A' <= c <= 'Z') || c == '.' || c == '-'
}

pub open spec fn safe_char(c: char) -> char {
    if is_safe_file_char(c) { c } else { '_' }
}

/// Name of the lock file for the lock `name`: `zenshot-{name}.lock`, with
/// every character other than ASCII letters, digits, `.` and `-` replaced by
/// `_`.
pub open spec fn sanitized(name: Seq<char>) -> Seq<char> {
    name.map_values(|c: char| safe_char(c))
}

pub open spec fn lock_file_text(name: Seq<char>) -> Seq<char> {
    "zenshot-"@ + sanitized(name) + ".lock"@
}

pub fn lock_file_name(name: &str) -> (file: String)
    ensures
        file@ == lock_file_text(name@),
{
    let mut file = String::from_str("zenshot-");
    let ghost prefix = file@;
    let n = name.unicode_len();
    let mut i: usize = 0;
    while i < n
        invariant
            n == name@.len(),
            i <= n,
            file@ == prefix + name@.subrange(0, i as int).map_values(|c: char| safe_char(c)),
        decreases n - i,
    {
        let c = name.get_char(i);
        let safe = ('0' <= c && c <= '9') || ('a' <= c && c <= 'z') || ('A' <= c && c <= 'Z') || c == '.' || c == '-';
        push_char(&mut file, if safe { c } else { '_' });
        proof {
            assert(name@.subrange(0, i + 1).map_values(|c: char| safe_char(c)) =~= name@.subrange(0, i as int).map_values(|c: char| safe_char(c)).push(safe_char(c)));
        }
        i = i + 1;
    }
    proof {
        assert(name@.subrange(0, n as int) =~= name@);
    }
    file.append(".lock");
    file
}

/// The sanitised part of a lock file name has one character per character
/// of the lock name, each of them safe in file names or `_`, and a name made
/// only of safe characters is kept as it is.
pub proof fn lemma_lock_name_is_safe(name: Seq<char>)
    ensures
        sanitized(name).len() == name.len(),
        forall|i: int| 0 <= i < name.len() ==> is_safe_file_char(#[trigger] sanitized(name)[i]) || sanitized(name)[i] == '_',
        (forall|i: int| 0 <= i < name.len() ==> is_safe_file_char(#[trigger] name[i])) ==> sanitized(name) == name,
{
    if forall|i: int| 0 <= i < name.len() ==> is_safe_file_char(#[trigger] name[i]) {
        assert(sanitized(name) =~= name);
    }
}

} // verus!
