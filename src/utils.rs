//! Helpers around the outside crates the core relies on, and the processing
//! of what `git` prints.

use vstd::prelude::*;
use crate::value::str_eq;

verus! {

/// The characters with the Unicode `White_Space` property, the ones
/// `char::is_whitespace` accepts.
pub open spec fn is_white_space(c: char) -> bool {
    let u = c as u32;
    (0x9 <= u <= 0xD) || u == 0x20 || u == 0x85 || u == 0xA0 || u == 0x1680 || (0x2000 <= u <= 0x200A)
        || u == 0x2028 || u == 0x2029 || u == 0x202F || u == 0x205F || u == 0x3000
}

/// `s` without its leading white space.
pub open spec fn trim_start(s: Seq<char>) -> Seq<char>
    decreases s.len(),
{
    if s.len() > 0 && is_white_space(s[0]) {
        trim_start(s.drop_first())
    } else {
        s
    }
}

/// `s` without its trailing white space.
pub open spec fn trim_end(s: Seq<char>) -> Seq<char>
    decreases s.len(),
{
    if s.len() > 0 && is_white_space(s.last()) {
        trim_end(s.drop_last())
    } else {
        s
    }
}

/// `s` without leading and trailing white space, as `str::trim` returns it.
pub open spec fn trimmed(s: Seq<char>) -> Seq<char> {
    trim_end(trim_start(s))
}

/// Whether `c` is white space, as `is_white_space` states.
pub fn white_space(c: char) -> (r: bool)
    ensures
        r == is_white_space(c),
{
    let u = c as u32;
    (0x9 <= u && u <= 0xD) || u == 0x20 || u == 0x85 || u == 0xA0 || u == 0x1680 || (0x2000 <= u && u
        <= 0x200A) || u == 0x2028 || u == 0x2029 || u == 0x202F || u == 0x205F || u == 0x3000
}

/// An upper-case hexadecimal digit, for `d < 16`.
pub open spec fn hex_digit(d: u8) -> char {
    if d < 10 {
        ((d + 48) as u32) as char
    } else {
        ((d + 55) as u32) as char
    }
}

/// `%XX` escapes of bytes, upper-case hexadecimal.
pub open spec fn bytes_escaped(bs: Seq<u8>) -> Seq<char>
    decreases bs.len(),
{
    if bs.len() == 0 {
        Seq::empty()
    } else {
        bytes_escaped(bs.drop_last()) + seq!['%', hex_digit(bs.last() / 16), hex_digit(bs.last() % 16)]
    }
}

/// One character as `percent_encoding::utf8_percent_encode` writes it with
/// the `CONTROLS` set: C0 controls, DEL and non-ASCII characters as the
/// `%XX` escapes of their UTF-8 bytes, any other character as it is.
pub open spec fn control_escaped(c: char) -> Seq<char> {
    let u = c as u32;
    if u < 0x20 || u == 0x7F || u >= 0x80 {
        bytes_escaped(vstd::utf8::encode_utf8(seq![c]))
    } else {
        seq![c]
    }
}

/// A text as `utf8_percent_encode` with `CONTROLS` writes it: each character
/// as `control_escaped` gives it.
pub open spec fn controls_escaped(s: Seq<char>) -> Seq<char>
    decreases s.len(),
{
    if s.len() == 0 {
        Seq::empty()
    } else {
        controls_escaped(s.drop_last()) + control_escaped(s.last())
    }
}

/// What `base64::encode` returns for the UTF-8 bytes of a text.
pub uninterp spec fn base64_of(s: Seq<char>) -> Seq<char>;

/// The host and the `owner/name` path that `git_url_parse::GitUrl::parse`
/// finds in a remote URL, when it parses.
pub uninterp spec fn git_url_parts(url: Seq<char>) -> Option<(Option<Seq<char>>, Seq<char>)>;

/// Removes leading and trailing white space, as `trimmed` states.
pub fn trim(s: &str) -> (r: String)
    ensures
        r@ == trimmed(s@),
{
    let n = s.unicode_len();
    let mut i: usize = 0;
    assert(s@.subrange(0, n as int) == s@);
    while i < n && white_space(s.get_char(i))
        invariant
            n == s@.len(),
            i <= n,
            trim_start(s@) == trim_start(s@.subrange(i as int, n as int)),
        decreases n - i,
    {
        assert(s@.subrange(i as int, n as int).drop_first() == s@.subrange(i + 1, n as int));
        i = i + 1;
    }
    assert(trim_start(s@) == s@.subrange(i as int, n as int));
    let mut j: usize = n;
    while j > i && white_space(s.get_char(j - 1))
        invariant
            n == s@.len(),
            i <= j <= n,
            trim_end(s@.subrange(i as int, n as int)) == trim_end(s@.subrange(i as int, j as int)),
        decreases j - i,
    {
        assert(s@.subrange(i as int, j as int).drop_last() == s@.subrange(i as int, j - 1));
        j = j - 1;
    }
    String::from_str(s.substring_char(i, j))
}

/// Relies on `percent_encoding::utf8_percent_encode` with `CONTROLS`: bytes
/// 0x00-0x1F, 0x7F and every non-ASCII byte become `percent_encode_byte`'s
/// upper-case `%XX`; the rest of the text is kept.
#[verifier::external_body]
fn escape_controls(s: &str) -> (r: String)
    ensures
        r@ == controls_escaped(s@),
{
    percent_encoding::utf8_percent_encode(s, percent_encoding::CONTROLS).to_string()
}

/// Relies on `base64::encode` (standard alphabet, padded) of the text's
/// UTF-8 bytes.
#[verifier::external_body]
fn base64_encode(s: &str) -> (r: String)
    ensures
        r@ == base64_of(s@),
{
    base64::encode(s)
}

/// The scheme, path and host that `git_url_parse::normalize_url` finds in a
/// remote URL, when it normalises it.
pub uninterp spec fn normalized_git_url(url: Seq<char>) -> Option<(Seq<char>, Seq<char>, Option<Seq<char>>)>;

/// Relies on `git_url_parse::normalize_url`, the first step of
/// `GitUrl::parse`: the scheme, path and host of the URL it builds, or
/// `None` when it fails. It checks lengths before it indexes, so it does not
/// panic.
#[verifier::external_body]
fn normalize_git_url(url: &str) -> (r: Option<(String, String, Option<String>)>)
    ensures
        match r {
            Some((s, p, h)) => normalized_git_url(url@) == Some(
                (
                    s@,
                    p@,
                    match h {
                        Some(h) => Some(h@),
                        None => None,
                    },
                ),
            ),
            None => normalized_git_url(url@) is None,
        },
{
    git_url_parse::normalize_url(url).ok().map(
        |u| (u.scheme().to_string(), u.path().to_string(), u.host_str().map(|h| h.to_string())),
    )
}

/// The number of `/` in `s`.
pub open spec fn slashes(s: Seq<char>) -> nat
    decreases s.len(),
{
    if s.len() == 0 {
        0
    } else {
        slashes(s.drop_last()) + if s.last() == '/' {
            1nat
        } else {
            0nat
        }
    }
}

/// How many pieces `str::rsplit_terminator('/')` cuts `s` into.
pub open spec fn pieces(s: Seq<char>) -> nat {
    if s.len() == 0 {
        0
    } else if s.last() == '/' {
        slashes(s)
    } else {
        slashes(s) + 1
    }
}

/// The hosts whose URL paths `GitUrl::parse` reads with an organisation.
pub open spec fn is_azure_host(h: Seq<char>) -> bool {
    h == "dev.azure.com"@ || h == "ssh.dev.azure.com"@
}

/// The normalised URLs on which `GitUrl::parse` panics: an `ssh` URL whose
/// path loses its first character to nothing or inside a multi-byte
/// character (lib.rs: `path()[1..]`, then `splitpath[0]`), and an
/// organisation host whose path has too few pieces for the indexes it takes
/// (three for `ssh`, four for `https`).
pub open spec fn parse_panics(n: Option<(Seq<char>, Seq<char>, Option<Seq<char>>)>) -> bool {
    match n {
        None => false,
        Some((scheme, path, host)) => path.len() > 0 && (
            (scheme == "ssh"@ && (path.len() == 1 || path[0] as u32 >= 128))
            || match host {
                Some(h) => is_azure_host(h) && (
                    (scheme == "ssh"@ && pieces(path.drop_first()) < 3)
                    || (scheme == "https"@ && pieces(path) < 4)),
                None => false,
            }),
    }
}

fn count_pieces(s: &str) -> (r: usize)
    ensures
        r as nat == pieces(s@),
{
    let n = s.unicode_len();
    let mut count: usize = 0;
    let mut i: usize = 0;
    while i < n
        invariant
            n == s@.len(),
            i <= n,
            count <= i,
            i > 0 && s@[i - 1] != '/' ==> count < i,
            count as nat == slashes(s@.subrange(0, i as int)),
        decreases n - i,
    {
        assert(s@.subrange(0, i + 1).drop_last() == s@.subrange(0, i as int));
        if s.get_char(i) == '/' {
            count = count + 1;
        }
        i = i + 1;
    }
    assert(s@.subrange(0, n as int) == s@);
    if n == 0 {
        0
    } else if s.get_char(n - 1) == '/' {
        count
    } else {
        count + 1
    }
}

/// Whether the URL parser would panic on a URL that normalised to `n`, as
/// `parse_panics` states.
fn parser_panics(n: &Option<(String, String, Option<String>)>) -> (r: bool)
    ensures
        r == parse_panics(
            match n {
                Some((s, p, h)) => Some(
                    (
                        s@,
                        p@,
                        match h {
                            Some(h) => Some(h@),
                            None => None,
                        },
                    ),
                ),
                None => None,
            },
        ),
{
    match n {
        None => false,
        Some((scheme, path, host)) => {
            let p = path.as_str();
            let len = p.unicode_len();
            if len == 0 {
                return false;
            }
            proof {
                reveal_strlit("ssh");
                reveal_strlit("https");
                assert("ssh"@.len() != "https"@.len());
            }
            let ssh = str_eq(scheme.as_str(), "ssh");
            if ssh && (len == 1 || p.get_char(0) as u32 >= 128) {
                return true;
            }
            match host {
                Some(h) => {
                    if !(str_eq(h.as_str(), "dev.azure.com") || str_eq(h.as_str(), "ssh.dev.azure.com")) {
                        return false;
                    }
                    if ssh {
                        let rest = p.substring_char(1, len);
                        assert(rest@ == p@.drop_first());
                        count_pieces(rest) < 3
                    } else if str_eq(scheme.as_str(), "https") {
                        count_pieces(p) < 4
                    } else {
                        false
                    }
                },
                None => false,
            }
        },
    }
}

/// Whether `GitUrl::parse` would panic on a remote URL.
pub fn git_url_unreadable(url: &str) -> (r: bool)
    ensures
        r == parse_panics(normalized_git_url(url@)),
{
    parser_panics(&normalize_git_url(url))
}

/// Relies on `git_url_parse::GitUrl::parse`: the `host` and `fullname` of
/// the parsed URL, or `None` when it does not parse. It is not handed the
/// URLs on which it panics (`parse_panics`).
#[verifier::external_body]
pub(crate) fn parse_git_url(url: &str) -> (r: Option<(Option<String>, String)>)
    requires
        !parse_panics(normalized_git_url(url@)),
    ensures
        match r {
            Some((h, f)) => git_url_parts(url@) == Some(
                (
                    match h {
                        Some(h) => Some(h@),
                        None => None,
                    },
                    f@,
                ),
            ),
            None => git_url_parts(url@) is None,
        },
{
    git_url_parse::GitUrl::parse(url).ok().map(|u| (u.host, u.fullname))
}

/// The escape of one character in a path component: `/` as `%2F`, any other
/// as `CONTROLS` escapes it.
pub open spec fn char_escaped(c: char) -> Seq<char> {
    if c == '/' {
        "%2F"@
    } else {
        control_escaped(c)
    }
}

/// A text escaped as one URL path component: each character as
/// `char_escaped` gives it.
pub open spec fn url_encoded(s: Seq<char>) -> Seq<char>
    decreases s.len(),
{
    if s.len() == 0 {
        Seq::empty()
    } else {
        url_encoded(s.drop_last()) + char_escaped(s.last())
    }
}

/// Escapes a text for use as one URL path component: control characters,
/// non-ASCII characters and `/` become `%XX` escapes.
pub fn url_encode(component: &str) -> (r: String)
    ensures
        r@ == url_encoded(component@),
{
    let n = component.unicode_len();
    let mut out = String::new();
    let mut i: usize = 0;
    while i < n
        invariant
            n == component@.len(),
            i <= n,
            out@ == url_encoded(component@.subrange(0, i as int)),
        decreases n - i,
    {
        let ghost pre = component@.subrange(0, i as int);
        let ghost next = component@.subrange(0, i + 1);
        assert(next.drop_last() == pre);
        let c = component.get_char(i);
        if c == '/' {
            out.append("%2F");
        } else {
            let piece = component.substring_char(i, i + 1);
            assert(piece@ == seq![c]);
            let escaped = escape_controls(piece);
            assert(seq![c].drop_last() == Seq::<char>::empty());
            assert(seq![c].last() == c);
            assert(controls_escaped(Seq::<char>::empty()) == Seq::<char>::empty());
            assert(Seq::<char>::empty() + control_escaped(c) == control_escaped(c));
            assert(controls_escaped(seq![c]) == control_escaped(c));
            out.append(escaped.as_str());
        }
        i = i + 1;
    }
    assert(component@.subrange(0, n as int) == component@);
    out
}

/// The value of an `Authorization` header for basic authentication.
pub fn basic_authorization(username: &str, token: &str) -> (r: String)
    ensures
        r@ == "Basic "@ + base64_of(username@ + ":"@ + token@),
{
    let mut pair = String::from_str(username);
    pair.append(":");
    pair.append(token);
    let encoded = base64_encode(pair.as_str());
    let mut header = String::from_str("Basic ");
    header.append(encoded.as_str());
    header
}

/// The name of the current branch from what
/// `git rev-parse --abbrev-ref HEAD` printed.
pub fn get_current_branch(output: &str) -> (r: String)
    ensures
        r@ == trimmed(output@),
{
    trim(output)
}

/// The revision list from what `git rev-list <rev>` printed.
pub fn get_rev(output: &str) -> (r: String)
    ensures
        r@ == trimmed(output@),
{
    trim(output)
}

/// The value of a setting from what `git config --get <key>` printed.
pub fn get_git_config(output: &str) -> (r: String)
    ensures
        r@ == trimmed(output@),
{
    trim(output)
}

/// What follows the first line: the text after its first newline, or
/// nothing when it has none.
pub open spec fn after_first_line(t: Seq<char>) -> Seq<char>
    decreases t.len(),
{
    if t.len() == 0 {
        Seq::empty()
    } else if t[0] == '\n' {
        t.drop_first()
    } else {
        after_first_line(t.drop_first())
    }
}

/// The message of the latest commit from what
/// `git rev-list --format=%B --max-count=1 HEAD` printed: the trimmed text
/// without its first line, which names the commit.
pub fn get_latest_commit_message(output: &str) -> (r: String)
    ensures
        r@ == after_first_line(trimmed(output@)),
{
    let t = trim(output);
    let s = t.as_str();
    let n = s.unicode_len();
    let mut i: usize = 0;
    assert(s@.subrange(0, n as int) == s@);
    while i < n
        invariant
            n == s@.len(),
            s@ == t@,
            t@ == trimmed(output@),
            i <= n,
            after_first_line(s@) == after_first_line(s@.subrange(i as int, n as int)),
        decreases n - i,
    {
        let ghost rest = s@.subrange(i as int, n as int);
        assert(rest.drop_first() == s@.subrange(i + 1, n as int));
        if s.get_char(i) == '\n' {
            assert(rest[0] == '\n');
            let tail = s.substring_char(i + 1, n);
            return String::from_str(tail);
        }
        i = i + 1;
    }
    String::new()
}

} // verus!
