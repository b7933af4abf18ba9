//! Screen capture glue: turning the Windows GDI pixel layout into RGBA8, and
//! talking to the XDG desktop portal that captures the screen on Linux.
use vstd::prelude::*;
use crate::codec::{image_decode_as, image_decoding_as};
use crate::raster::Raster;
use crate::text::{push_char, push_decimal, decimal};

verus! {

/// Converts 32-bit GDI pixels (blue in the low byte, then green, then red)
/// into RGBA8 bytes with full opacity.
pub fn bgrx_to_rgba(src: &[u32]) -> (rgba: Vec<u8>)
    requires
        4 * src@.len() <= usize::MAX,
    ensures
        rgba@.len() == 4 * src@.len(),
        forall|i: int| 0 <= i < src@.len() ==> {
            &&& #[trigger] rgba@[4 * i] == (src@[i] >> 16u32) as u8
            &&& rgba@[4 * i + 1] == (src@[i] >> 8u32) as u8
            &&& rgba@[4 * i + 2] == src@[i] as u8
            &&& rgba@[4 * i + 3] == 255
        },
{
    let mut out: Vec<u8> = Vec::new();
    let mut i: usize = 0;
    while i < src.len()
        invariant
            i <= src@.len(),
            4 * src@.len() <= usize::MAX,
            out@.len() == 4 * i,
            forall|k: int| 0 <= k < i ==> {
                &&& #[trigger] out@[4 * k] == (src@[k] >> 16u32) as u8
                &&& out@[4 * k + 1] == (src@[k] >> 8u32) as u8
                &&& out@[4 * k + 2] == src@[k] as u8
                &&& out@[4 * k + 3] == 255
            },
        decreases src@.len() - i,
    {
        let v = src[i];
        let r = ((v >> 16u32) & 0xFF) as u8;
        let g = ((v >> 8u32) & 0xFF) as u8;
        let b = (v & 0xFF) as u8;
        assert(((v >> 16u32) & 0xFF) as u8 == (v >> 16u32) as u8) by (bit_vector);
        assert(((v >> 8u32) & 0xFF) as u8 == (v >> 8u32) as u8) by (bit_vector);
        assert((v & 0xFF) as u8 == v as u8) by (bit_vector);
        let ghost prev = out@;
        out.push(r);
        out.push(g);
        out.push(b);
        out.push(255);
        proof {
            assert forall|k: int| 0 <= k < i + 1 implies {
                &&& #[trigger] out@[4 * k] == (src@[k] >> 16u32) as u8
                &&& out@[4 * k + 1] == (src@[k] >> 8u32) as u8
                &&& out@[4 * k + 2] == src@[k] as u8
                &&& out@[4 * k + 3] == 255
            } by {
                if k < i {
                    assert(prev[4 * k] == out@[4 * k]);
                }
            }
        }
        i = i + 1;
    }
    out
}

/// Bus names may start with `:`; the portal's request path uses the name
/// without leading colons and with `.` written as `_`.
pub open spec fn sender_token_of(unique_name: Seq<char>) -> Seq<char> {
    strip_colons(unique_name).map_values(|c: char| if c == '.' { '_' } else { c })
}

pub open spec fn strip_colons(s: Seq<char>) -> Seq<char>
    decreases s.len(),
{
    if s.len() > 0 && s[0] == ':' {
        strip_colons(s.drop_first())
    } else {
        s
    }
}

/// Object path of the portal request a screenshot call with `token` creates.
pub open spec fn request_path_text(unique_name: Seq<char>, token: Seq<char>) -> Seq<char> {
    "/org/freedesktop/portal/desktop/request/"@ + sender_token_of(unique_name) + "/"@ + token
}

pub fn portal_request_path(unique_name: &str, token: &str) -> (path: String)
    ensures
        path@ == request_path_text(unique_name@, token@),
{
    let n = unique_name.unicode_len();
    let mut i: usize = 0;
    proof {
        assert(unique_name@.subrange(0, n as int) =~= unique_name@);
    }
    while i < n && unique_name.get_char(i) == ':'
        invariant
            n == unique_name@.len(),
            i <= n,
            strip_colons(unique_name@) == strip_colons(unique_name@.subrange(i as int, n as int)),
        decreases n - i,
    {
        proof {
            assert(unique_name@.subrange(i as int, n as int).drop_first() =~= unique_name@.subrange(i + 1, n as int));
        }
        i = i + 1;
    }
    proof {
        if i == 0 {
            assert(unique_name@.subrange(0, n as int) =~= unique_name@);
        }
        assert(strip_colons(unique_name@.subrange(i as int, n as int)) == unique_name@.subrange(i as int, n as int));
    }
    let mut path = String::from_str("/org/freedesktop/portal/desktop/request/");
    let ghost prefix = path@;
    let ghost stripped = unique_name@.subrange(i as int, n as int);
    let mut k: usize = i;
    while k < n
        invariant
            n == unique_name@.len(),
            i <= k <= n,
            stripped == unique_name@.subrange(i as int, n as int),
            path@ == prefix + stripped.subrange(0, k - i).map_values(|c: char| if c == '.' { '_' } else { c }),
        decreases n - k,
    {
        let c = unique_name.get_char(k);
        push_char(&mut path, if c == '.' { '_' } else { c });
        proof {
            assert(stripped.subrange(0, k + 1 - i) =~= stripped.subrange(0, k - i).push(c));
            assert(stripped.subrange(0, k + 1 - i).map_values(|c: char| if c == '.' { '_' } else { c })
                =~= stripped.subrange(0, k - i).map_values(|c: char| if c == '.' { '_' } else { c }).push(
                if c == '.' { '_' } else { c }));
        }
        k = k + 1;
    }
    proof {
        assert(stripped.subrange(0, n - i) =~= stripped);
    }
    path.append("/");
    path.append(token);
    path
}

/// Handle token of one screenshot request: `zenshot_{pid}_{nanos}`.
pub fn portal_token(pid: u32, nanos: u128) -> (token: String)
    ensures
        token@ == "zenshot_"@ + decimal(pid as nat) + "_"@ + decimal(nanos as nat),
{
    let mut token = String::from_str("zenshot_");
    push_decimal(&mut token, pid as u128);
    token.append("_");
    push_decimal(&mut token, nanos);
    token
}

/// The parent-window identifier handed to the portal.
pub fn parent_window(wayland: bool) -> (id: &'static str)
    ensures
        id@ == (if wayland { "wayland:"@ } else { "x11:"@ }),
{
    if wayland {
        "wayland:"
    } else {
        "x11:"
    }
}

/// How many times a portal capture is attempted: a second try absorbs the
/// D-Bus daemon's cold start after idle.
pub const PORTAL_ATTEMPTS: u32 = 2;

/// After a failed attempt, whether another one follows.
pub fn retry_after_failure(attempt: u32) -> (again: bool)
    ensures
        again == (attempt < PORTAL_ATTEMPTS),
{
    attempt < PORTAL_ATTEMPTS
}

/// The `uri` entry of a portal response.
#[derive(Debug, Clone)]
pub enum PortalUri {
    Missing,
    NotText,
    Text(String),
}

#[verifier::external_type_specification]
#[verifier::external_body]
pub struct ExUrl(url::Url);

#[verifier::external_type_specification]
#[verifier::external_body]
pub struct ExPathBuf(std::path::PathBuf);

/// Whether the URL parser accepts `uri`.
pub uninterp spec fn url_parses(uri: Seq<char>) -> bool;

/// Parses a URL.
///
/// Trusted: calls `url::Url::parse`, whose outcome depends on the text alone;
/// whether it succeeds is named `url_parses`. The error is the parser's
/// message.
#[verifier::external_body]
fn parse_url(uri: &str) -> (r: Result<url::Url, String>)
    ensures
        r is Ok <==> url_parses(uri@),
{
    url::Url::parse(uri).map_err(|e| e.to_string())
}

/// The local file a `file:` URL names.
///
/// Trusted: calls `url::Url::to_file_path`, which fails for URLs that are
/// not local files; how it builds the path depends on the platform, so
/// nothing is stated of the outcome.
#[verifier::external_body]
fn url_file_path(url: &url::Url) -> Option<std::path::PathBuf> {
    url.to_file_path().ok()
}

/// The error a portal response is reported with.
pub open spec fn portal_error(code: u32, uri: PortalUri) -> Option<Seq<char>> {
    if code != 0 {
        Some("Screenshot portal cancelled or failed (code "@ + decimal(code as nat) + ")"@)
    } else {
        match uri {
            PortalUri::Missing => Some("No URI returned in portal response"@),
            PortalUri::NotText => Some("Invalid URI format in portal response"@),
            PortalUri::Text(_) => None,
        }
    }
}

pub open spec fn invalid_uri_message(uri: Seq<char>, reason: Seq<char>) -> Seq<char> {
    "Invalid URI '"@ + uri + "': "@ + reason
}

/// The file holding the captured image, from the portal's response code and
/// its `uri` entry.
pub fn portal_image_path(code: u32, uri: PortalUri) -> (r: Result<std::path::PathBuf, String>)
    ensures
        portal_error(code, uri) matches Some(msg) ==> (r matches Err(e) && e@ == msg),
        portal_error(code, uri) is None ==> (uri matches PortalUri::Text(t) && (if url_parses(t@) {
            r is Ok || (r matches Err(e) && e@ == "URI is not a valid local path: "@ + t@)
        } else {
            r matches Err(e) && exists|m: Seq<char>| e@ == #[trigger] invalid_uri_message(t@, m)
        })),
{
    if code != 0 {
        let mut msg = String::from_str("Screenshot portal cancelled or failed (code ");
        push_decimal(&mut msg, code as u128);
        msg.append(")");
        return Err(msg);
    }
    let text = match uri {
        PortalUri::Missing => {
            return Err(String::from_str("No URI returned in portal response"));
        },
        PortalUri::NotText => {
            return Err(String::from_str("Invalid URI format in portal response"));
        },
        PortalUri::Text(t) => t,
    };
    let url = match parse_url(text.as_str()) {
        Ok(u) => u,
        Err(e) => {
            let mut msg = String::from_str("Invalid URI '");
            msg.append(text.as_str());
            msg.append("': ");
            msg.append(e.as_str());
            proof {
                assert(msg@ == invalid_uri_message(text@, e@));
            }
            return Err(msg);
        },
    };
    match url_file_path(&url) {
        Some(path) => Ok(path),
        None => {
            let mut msg = String::from_str("URI is not a valid local path: ");
            msg.append(text.as_str());
            Err(msg)
        },
    }
}

/// The screenshot the portal wrote, from the bytes of its file and the
/// file name's extension, which names the image format it is read as.
pub fn decode_captured_image(bytes: &[u8], extension: &str) -> (r: Result<Raster, String>)
    ensures
        r matches Ok(img) ==> img.wf() && image_decoding_as(bytes@, extension@) == Some((img.width, img.height, img.pixels@)),
        r matches Err(msg) ==> image_decoding_as(bytes@, extension@) is None
            && msg@.subrange(0, 31) == "Failed to open captured image: "@,
{
    match image_decode_as(bytes, extension) {
        Ok((width, height, pixels)) => Ok(Raster { width, height, pixels }),
        Err(e) => {
            let mut msg = String::from_str("Failed to open captured image: ");
            msg.append(e.as_str());
            proof {
                reveal_strlit("Failed to open captured image: ");
                assert(msg@.subrange(0, 31) =~= "Failed to open captured image: "@);
            }
            Err(msg)
        },
    }
}

} // verus!
