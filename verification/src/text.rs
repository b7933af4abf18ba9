//! Character-level string helpers shared by the modules that build labels,
//! paths and protocol messages.
use vstd::prelude::*;

verus! {

/// `parts` joined with `sep` between consecutive entries.
pub open spec fn join_parts(parts: Seq<Seq<char>>, sep: Seq<char>) -> Seq<char>
    decreases parts.len(),
{
    if parts.len() == 0 {
        Seq::empty()
    } else if parts.len() == 1 {
        parts[0]
    } else {
        join_parts(parts.drop_last(), sep) + sep + parts.last()
    }
}

/// Joins string slices with a separator, like `[&str]::join`.
pub fn join_with(parts: &Vec<&str>, sep: &str) -> (s: String)
    ensures
        s@ == join_parts(parts@.map_values(|p: &str| p@), sep@),
{
    let ghost views = parts@.map_values(|p: &str| p@);
    let mut s = String::new();
    let mut i: usize = 0;
    while i < parts.len()
        invariant
            i <= parts.len(),
            views == parts@.map_values(|p: &str| p@),
            s@ == join_parts(views.take(i as int), sep@),
        decreases parts.len() - i,
    {
        proof {
            assert(views.take(i + 1).drop_last() =~= views.take(i as int));
        }
        if i != 0 {
            s.append(sep);
        }
        s.append(parts[i]);
        i = i + 1;
    }
    proof {
        assert(views.take(parts.len() as int) =~= views);
    }
    s
}

/// Appends one character.
///
/// Trusted: calls std's `String::push`, which its documentation describes as
/// appending the given char to the end of the string; the contract says
/// exactly that of the string's characters.
#[verifier::external_body]
pub(crate) fn push_char(s: &mut String, c: char)
    ensures
        final(s)@ == old(s)@.push(c),
{
    s.push(c);
}

/// Unicode's `White_Space` property, which `char::is_whitespace` and
/// `str::trim` go by.
pub open spec fn is_white_space(c: char) -> bool {
    let v = c as u32;
    ||| 0x09 <= v <= 0x0D
    ||| v == 0x20
    ||| v == 0x85
    ||| v == 0xA0
    ||| v == 0x1680
    ||| 0x2000 <= v <= 0x200A
    ||| v == 0x2028
    ||| v == 0x2029
    ||| v == 0x202F
    ||| v == 0x205F
    ||| v == 0x3000
}

pub fn is_whitespace(c: char) -> (b: bool)
    ensures
        b == is_white_space(c),
{
    let v = c as u32;
    (0x09 <= v && v <= 0x0D) || v == 0x20 || v == 0x85 || v == 0xA0 || v == 0x1680 || (0x2000 <= v && v
        <= 0x200A) || v == 0x2028 || v == 0x2029 || v == 0x202F || v == 0x205F || v == 0x3000
}

/// `s` without its leading white space.
pub open spec fn trim_start(s: Seq<char>) -> Seq<char>
    decreases s.len(),
{
    if s.len() > 0 && is_white_space(s[0]) {
        trim_start(s.drop_first())
    } else {
        s
    }
}

/// `s` without its trailing white space.
pub open spec fn trim_end(s: Seq<char>) -> Seq<char>
    decreases s.len(),
{
    if s.len() > 0 && is_white_space(s.last()) {
        trim_end(s.drop_last())
    } else {
        s
    }
}

/// `s` without leading or trailing white space, like `str::trim`.
pub open spec fn trimmed(s: Seq<char>) -> Seq<char> {
    trim_end(trim_start(s))
}

/// Returns `s` with leading and trailing white space removed.
pub fn trim(s: &str) -> (t: &str)
    ensures
        t@ == trimmed(s@),
{
    let n = s.unicode_len();
    let mut i: usize = 0;
    proof {
        assert(s@.subrange(0, n as int) =~= s@);
    }
    while i < n && is_whitespace(s.get_char(i))
        invariant
            n == s@.len(),
            i <= n,
            trim_start(s@) == trim_start(s@.subrange(i as int, n as int)),
        decreases n - i,
    {
        proof {
            assert(s@.subrange(i as int, n as int).drop_first() =~= s@.subrange(i + 1, n as int));
        }
        i = i + 1;
    }
    proof {
        assert(trim_start(s@.subrange(i as int, n as int)) == s@.subrange(i as int, n as int));
    }
    let mut j: usize = n;
    while j > i && is_whitespace(s.get_char(j - 1))
        invariant
            n == s@.len(),
            i <= j <= n,
            trim_start(s@) == s@.subrange(i as int, n as int),
            trimmed(s@) == trim_end(s@.subrange(i as int, j as int)),
        decreases j - i,
    {
        proof {
            assert(s@.subrange(i as int, j as int).drop_last() =~= s@.subrange(i as int, j - 1));
        }
        j = j - 1;
    }
    s.substring_char(i, j)
}

/// Character-wise string equality.
pub fn str_eq(a: &str, b: &str) -> (eq: bool)
    ensures
        eq == (a@ == b@),
{
    let n = a.unicode_len();
    if n != b.unicode_len() {
        return false;
    }
    let mut i: usize = 0;
    while i < n
        invariant
            n == a@.len(),
            n == b@.len(),
            i <= n,
            forall|k: int| 0 <= k < i ==> a@[k] == b@[k],
        decreases n - i,
    {
        if a.get_char(i) != b.get_char(i) {
            return false;
        }
        i = i + 1;
    }
    proof {
        assert(a@ =~= b@);
    }
    true
}

/// `s` begins with the character `c`.
pub fn starts_with_char(s: &str, c: char) -> (b: bool)
    ensures
        b == (s@.len() > 0 && s@[0] == c),
{
    s.unicode_len() > 0 && s.get_char(0) == c
}

/// UTF-16 code units of one character: itself below U+10000, otherwise a
/// surrogate pair.
pub open spec fn utf16_units(c: char) -> Seq<u16> {
    let v = c as u32;
    if v < 0x10000 {
        seq![v as u16]
    } else {
        seq![(0xD800 + (v - 0x10000) / 0x400) as u16, (0xDC00 + (v - 0x10000) % 0x400) as u16]
    }
}

/// UTF-16 encoding of a character sequence, like `str::encode_utf16`.
pub open spec fn utf16_encode(s: Seq<char>) -> Seq<u16>
    decreases s.len(),
{
    if s.len() == 0 {
        Seq::empty()
    } else {
        utf16_encode(s.drop_last()) + utf16_units(s.last())
    }
}

pub open spec fn is_high_surrogate(u: u16) -> bool {
    0xD800 <= u < 0xDC00
}

pub open spec fn is_low_surrogate(u: u16) -> bool {
    0xDC00 <= u < 0xE000
}

/// The character a surrogate pair stands for.
pub open spec fn surrogate_pair_char(hi: u16, lo: u16) -> char {
    ((0x10000 + (hi - 0xD800) * 0x400 + (lo - 0xDC00)) as u32) as char
}

/// The characters UTF-16 code units decode to, like `String::from_utf16`;
/// `None` when a surrogate is unpaired.
pub open spec fn utf16_decode(units: Seq<u16>) -> Option<Seq<char>>
    decreases units.len(),
{
    if units.len() == 0 {
        Some(Seq::empty())
    } else {
        let u = units.last();
        if is_low_surrogate(u) {
            if units.len() >= 2 && is_high_surrogate(units[units.len() - 2]) {
                match utf16_decode(units.subrange(0, units.len() - 2)) {
                    Some(p) => Some(p.push(surrogate_pair_char(units[units.len() - 2], u))),
                    None => None,
                }
            } else {
                None
            }
        } else if is_high_surrogate(u) {
            None
        } else {
            match utf16_decode(units.drop_last()) {
                Some(p) => Some(p.push((u as u32) as char)),
                None => None,
            }
        }
    }
}

/// Decoding the UTF-16 encoding of any text gives that text back.
pub proof fn lemma_utf16_roundtrip(s: Seq<char>)
    ensures
        utf16_decode(utf16_encode(s)) == Some(s),
    decreases s.len(),
{
    if s.len() > 0 {
        let p = s.drop_last();
        let c = s.last();
        lemma_utf16_roundtrip(p);
        vstd::utf8::char_is_scalar(c);
        let v = c as u32;
        let e = utf16_encode(s);
        assert(e == utf16_encode(p) + utf16_units(c));
        if v < 0x10000 {
            assert(e.drop_last() =~= utf16_encode(p));
            assert(e.last() == v as u16);
            assert(((v as u16) as u32) == v);
            vstd::utf8::char_u32_cast(c, v);
        } else {
            let q = (v - 0x10000) / 0x400;
            let r = (v - 0x10000) % 0x400;
            assert(0 <= q < 0x400 && 0 <= r < 0x400) by (nonlinear_arith)
                requires
                    0x10000 <= v <= 0x10FFFF,
                    q == (v - 0x10000) / 0x400,
                    r == (v - 0x10000) % 0x400,
            ;
            assert(v == 0x10000 + q * 0x400 + r) by (nonlinear_arith)
                requires
                    0x10000 <= v,
                    q == (v - 0x10000) / 0x400,
                    r == (v - 0x10000) % 0x400,
            ;
            let hi = (0xD800 + q) as u16;
            let lo = (0xDC00 + r) as u16;
            assert(e.subrange(0, e.len() - 2) =~= utf16_encode(p));
            assert(e[e.len() - 2] == hi);
            assert(e.last() == lo);
            assert((0x10000 + (hi - 0xD800) * 0x400 + (lo - 0xDC00)) as u32 == v);
            vstd::utf8::char_u32_cast(c, v);
            assert(surrogate_pair_char(hi, lo) == c);
        }
        assert(s =~= p.push(c));
    }
}

/// Decodes UTF-16 text.
///
/// Trusted: calls std's `String::from_utf16_lossy`, documented to decode the
/// units and replace invalid data with U+FFFD; the contract states the
/// result for valid UTF-16 and leaves the replacements unsaid.
#[verifier::external_body]
pub(crate) fn utf16_text(units: &[u16]) -> (text: String)
    ensures
        utf16_decode(units@) matches Some(t) ==> text@ == t,
{
    String::from_utf16_lossy(units)
}

/// The UTF-16 code units of `s`.
pub fn encode_utf16(s: &str) -> (units: Vec<u16>)
    ensures
        units@ == utf16_encode(s@),
{
    let n = s.unicode_len();
    let mut out: Vec<u16> = Vec::new();
    let mut i: usize = 0;
    while i < n
        invariant
            n == s@.len(),
            i <= n,
            out@ == utf16_encode(s@.subrange(0, i as int)),
        decreases n - i,
    {
        let c = s.get_char(i);
        let v = c as u32;
        proof {
            vstd::utf8::char_is_scalar(c);
        }
        if v < 0x10000 {
            out.push(v as u16);
        } else {
            let u = v - 0x10000;
            out.push((0xD800 + u / 0x400) as u16);
            out.push((0xDC00 + u % 0x400) as u16);
        }
        proof {
            let sub = s@.subrange(0, i + 1);
            assert(sub.drop_last() =~= s@.subrange(0, i as int));
            assert(sub.last() == c);
            assert(out@ =~= utf16_encode(sub));
        }
        i = i + 1;
    }
    proof {
        assert(s@.subrange(0, n as int) =~= s@);
    }
    out
}

/// Fills `dest` with as much of `text`'s UTF-16 encoding as fits while
/// leaving room for a terminating NUL; every remaining unit is zero.
pub fn write_utf16(dest: &mut [u16], text: &str)
    ensures
        final(dest)@.len() == old(dest)@.len(),
        forall|i: int|
            0 <= i < old(dest)@.len() ==> #[trigger] final(dest)@[i] == (if i < old(dest)@.len() - 1 && i
                < utf16_encode(text@).len() {
                utf16_encode(text@)[i]
            } else {
                0u16
            }),
{
    let units = encode_utf16(text);
    let n = dest.len();
    let limit: usize = if n > 0 { n - 1 } else { 0 };
    let ghost start_len = dest@.len();
    let mut i: usize = 0;
    while i < n
        invariant
            n == dest@.len(),
            n == start_len,
            limit == (if n > 0 { n - 1 } else { 0 }),
            units@ == utf16_encode(text@),
            i <= n,
            forall|k: int|
                0 <= k < i ==> #[trigger] dest@[k] == (if k < n - 1 && k < units@.len() {
                    units@[k]
                } else {
                    0u16
                }),
        decreases n - i,
    {
        if i < limit && i < units.len() {
            dest[i] = units[i];
        } else {
            dest[i] = 0;
        }
        i = i + 1;
    }
}


pub open spec fn digit_char(d: int) -> char {
    if d == 0 { '0' }
    else if d == 1 { '1' }
    else if d == 2 { '2' }
    else if d == 3 { '3' }
    else if d == 4 { '4' }
    else if d == 5 { '5' }
    else if d == 6 { '6' }
    else if d == 7 { '7' }
    else if d == 8 { '8' }
    else { '9' }
}

/// Decimal digits of `n`, most significant first, with no leading zeros.
pub open spec fn decimal(n: nat) -> Seq<char>
    decreases n,
{
    if n < 10 {
        seq![digit_char(n as int)]
    } else {
        decimal(n / 10) + seq![digit_char((n % 10) as int)]
    }
}

fn digit(d: u128) -> (c: char)
    requires
        d < 10,
    ensures
        c == digit_char(d as int),
{
    if d == 0 { '0' }
    else if d == 1 { '1' }
    else if d == 2 { '2' }
    else if d == 3 { '3' }
    else if d == 4 { '4' }
    else if d == 5 { '5' }
    else if d == 6 { '6' }
    else if d == 7 { '7' }
    else if d == 8 { '8' }
    else { '9' }
}

/// Appends the decimal digits of `n`.
pub fn push_decimal(s: &mut String, n: u128)
    ensures
        final(s)@ == old(s)@ + decimal(n as nat),
    decreases n,
{
    if n >= 10 {
        push_decimal(s, n / 10);
    }
    push_char(s, digit(n % 10));
    proof {
        if n < 10 {
            assert(n % 10 == n);
        }
    }
}

} // verus!
