//! Reading the browser, the platform and the operating-system label out of
//! a user-agent string.
//!
//! Each query parses the string afresh. The platform block is the text
//! between the first `(` and the first `)`; the browser label is the last
//! space-separated token.

use vstd::prelude::*;

use crate::text::{
    begins_with, contains, find, find_first, find_from, find_last, has, lemma_find_from_absent,
    lemma_find_from_bounds, lemma_find_last_absent, lemma_find_last_append, lemma_find_last_bounds,
    replace_all, replace_char, rfind_char, starts_with,
};

verus! {

/// Coarse classification of the operating system.
#[derive(Clone, Debug, PartialEq, Eq)]
pub enum Platform {
    Windows,
    Linux,
    MacOS,
    /// Not recognised: the platform block, verbatim.
    Unknown(String),
}

/// The mathematical value of a [`Platform`].
pub enum PlatformModel {
    Windows,
    Linux,
    MacOS,
    Unknown(Seq<char>),
}

impl View for Platform {
    type V = PlatformModel;

    open spec fn view(&self) -> PlatformModel {
        match self {
            Platform::Windows => PlatformModel::Windows,
            Platform::Linux => PlatformModel::Linux,
            Platform::MacOS => PlatformModel::MacOS,
            Platform::Unknown(s) => PlatformModel::Unknown(s@),
        }
    }
}

/// The desktop environment; inside a page it is always the browser.
#[derive(Clone, Copy, Debug, PartialEq, Eq, Structural)]
pub enum DesktopEnv {
    WebBrowser,
}

/// Length of `"NT "`: the Windows version starts this far after `"NT"`.
pub const NT_VERSION_OFFSET: usize = 3;

/// Length of `"; "`: the Linux distribution token starts this far after the
/// first `;` when a windowing-system token comes first.
pub const SEPARATOR_WIDTH: usize = 2;

/// A last token that names Safari, with or without a version after a `/`.
pub open spec fn is_safari_token(token: Seq<char>) -> bool {
    token == "Safari"@ || begins_with(token, "Safari/"@)
}

/// The browser label of a user agent, read from its last space-separated
/// token. A Safari token counts as Chrome whenever `"Chrome"` appears
/// anywhere, since Chrome carries Safari's token too; any other token is
/// given with each `/` read as a space.
pub open spec fn device_label(ua: Seq<char>) -> Seq<char> {
    match find_last(ua, ' ') {
        None => "Unknown Browser"@,
        Some(i) => {
            let token = ua.subrange(i + 1, ua.len() as int);
            if is_safari_token(token) {
                if has(ua, "Chrome"@) {
                    "Chrome"@
                } else {
                    "Safari"@
                }
            } else {
                replace_all(token, '/', ' ')
            }
        },
    }
}

/// The text strictly between the first `(` and the first `)`; empty when
/// the `)` comes first; none when either is missing.
pub open spec fn block_of(ua: Seq<char>) -> Option<Seq<char>> {
    match (find_first(ua, "("@), find_first(ua, ")"@)) {
        (Some(b), Some(e)) => Some(
            if b < e {
                ua.subrange(b + 1, e)
            } else {
                Seq::empty()
            },
        ),
        _ => None,
    }
}

pub open spec fn is_windows(block: Seq<char>) -> bool {
    has(block, "Win32"@) || has(block, "Win64"@)
}

pub open spec fn is_linux(block: Seq<char>) -> bool {
    has(block, "Linux"@)
}

pub open spec fn is_mac(block: Seq<char>) -> bool {
    has(block, "Mac OS X"@)
}

/// The platform named by a platform block; the first family that matches
/// wins.
pub open spec fn classify(block: Seq<char>) -> PlatformModel {
    if is_windows(block) {
        PlatformModel::Windows
    } else if is_linux(block) {
        PlatformModel::Linux
    } else if is_mac(block) {
        PlatformModel::MacOS
    } else {
        PlatformModel::Unknown(block)
    }
}

/// The platform of a user agent.
pub open spec fn platform_of(ua: Seq<char>) -> PlatformModel {
    match block_of(ua) {
        None => PlatformModel::Unknown("Unknown"@),
        Some(block) => classify(block),
    }
}

/// `s[from..to]`, or empty where `to` comes before `from`.
pub open spec fn span(s: Seq<char>, from: int, to: int) -> Seq<char> {
    if from <= to {
        s.subrange(from, to)
    } else {
        Seq::empty()
    }
}

/// `"Windows <version>"`, the version running from three characters after
/// `"NT"` up to the next `.`; plain `"Windows"` where either is missing.
pub open spec fn windows_label(block: Seq<char>) -> Seq<char> {
    match find_first(block, "NT"@) {
        None => "Windows"@,
        Some(n) => match find_from(block, "."@, n) {
            None => "Windows"@,
            Some(d) => "Windows "@ + span(block, n + NT_VERSION_OFFSET, d),
        },
    }
}

/// Where a Linux block names a windowing system, the text two characters
/// past its first `;` (none without a `;`); else the whole block.
pub open spec fn linux_scope(block: Seq<char>) -> Option<Seq<char>> {
    if has(block, "X11"@) || has(block, "Wayland"@) {
        match find_first(block, ";"@) {
            None => None,
            Some(k) => Some(
                block.subrange(
                    if k + SEPARATOR_WIDTH <= block.len() {
                        k + SEPARATOR_WIDTH
                    } else {
                        block.len() as int
                    },
                    block.len() as int,
                ),
            ),
        }
    } else {
        Some(block)
    }
}

/// The distribution token of a Linux block: the scoped text up to its first
/// `;`, or `"Unknown Linux"` where it starts with `"Linux"` or has no `;`.
pub open spec fn linux_label(block: Seq<char>) -> Seq<char> {
    match linux_scope(block) {
        None => "Unknown Linux"@,
        Some(t) => if begins_with(t, "Linux"@) {
            "Unknown Linux"@
        } else {
            match find_first(t, ";"@) {
                None => "Unknown Linux"@,
                Some(e) => t.subrange(0, e),
            }
        },
    }
}

/// From `"Mac OS X"` up to the next `;`; without a `;`, up to the end with
/// every `_` read as `.`.
pub open spec fn mac_label(block: Seq<char>) -> Seq<char> {
    match find_first(block, "Mac OS X"@) {
        None => Seq::empty(),
        Some(m) => {
            let rest = block.subrange(m, block.len() as int);
            match find_first(rest, ";"@) {
                Some(e) => rest.subrange(0, e),
                None => replace_all(rest, '_', '.'),
            }
        },
    }
}

/// The distribution label of a platform block, by the same order of
/// families as [`classify`]; an unknown block is passed through.
pub open spec fn distro_label(block: Seq<char>) -> Seq<char> {
    if is_windows(block) {
        windows_label(block)
    } else if is_linux(block) {
        linux_label(block)
    } else if is_mac(block) {
        mac_label(block)
    } else {
        block
    }
}

/// The distribution label of a user agent, none without a platform block.
pub open spec fn distro_of(ua: Seq<char>) -> Option<Seq<char>> {
    match block_of(ua) {
        None => None,
        Some(block) => Some(distro_label(block)),
    }
}

/// A user agent without a space names no browser: its label is
/// `"Unknown Browser"`.
pub proof fn lemma_no_space_unknown_browser(ua: Seq<char>)
    requires
        !ua.contains(' '),
    ensures
        device_label(ua) == "Unknown Browser"@,
{
    lemma_find_last_absent(ua, ' ');
}

/// Where the last space-separated token of a user agent is `Safari` or
/// begins with `Safari/` (as in `Safari/605.1.15`), its label is `"Chrome"`
/// if `"Chrome"` appears anywhere in it, and `"Safari"` otherwise.
pub proof fn lemma_safari_token(head: Seq<char>, token: Seq<char>)
    requires
        !token.contains(' '),
        token == "Safari"@ || begins_with(token, "Safari/"@),
    ensures
        device_label(head.push(' ') + token) == if has(head.push(' ') + token, "Chrome"@) {
            "Chrome"@
        } else {
            "Safari"@
        },
{
    let ua = head.push(' ') + token;
    lemma_find_last_append(head.push(' '), token, ' ');
    assert(find_last(head.push(' '), ' ') == Some(head.len() as int));
    assert(ua.subrange(head.len() as int + 1, ua.len() as int) =~= token);
}

/// A user agent with neither `(` nor `)` has no platform block: its platform
/// is unknown, under the name `"Unknown"`, and it has no distribution label.
pub proof fn lemma_no_block(ua: Seq<char>)
    requires
        !ua.contains('('),
        !ua.contains(')'),
    ensures
        platform_of(ua) == PlatformModel::Unknown("Unknown"@),
        distro_of(ua) is None,
{
    reveal_strlit("(");
    reveal_strlit(")");
    assert("("@ =~= seq!['(']);
    assert(")"@ =~= seq![')']);
    lemma_find_from_absent(ua, '(', 0);
    lemma_find_from_absent(ua, ')', 0);
}

/// The login name: there is none to read inside a page.
pub fn username() -> (r: String)
    ensures
        r@ == "anonymous"@,
{
    String::from_str("anonymous")
}

/// The display name: there is none to read inside a page.
pub fn realname() -> (r: String)
    ensures
        r@ == "Anonymous"@,
{
    String::from_str("Anonymous")
}

/// The host name, which inside a page is the document's domain.
pub fn hostname(document_domain: &str) -> (r: String)
    ensures
        r@ == document_domain@,
{
    String::from_str(document_domain)
}

/// The desktop environment.
pub fn desktop_env() -> (r: DesktopEnv)
    ensures
        r == DesktopEnv::WebBrowser,
{
    DesktopEnv::WebBrowser
}

/// The browser label of `user_agent`.
pub fn devicename(user_agent: &str) -> (r: String)
    ensures
        r@ == device_label(user_agent@),
{
    let start = match rfind_char(user_agent, ' ') {
        Some(s) => s,
        None => return String::from_str("Unknown Browser"),
    };
    proof {
        lemma_find_last_bounds(user_agent@, ' ');
        reveal_strlit(" ");
    }
    let len = user_agent.unicode_len();
    let token = user_agent.substring_char(start + 1, len);
    if String::from_str(token) == String::from_str("Safari") || starts_with(token, "Safari/") {
        if contains(user_agent, "Chrome") {
            String::from_str("Chrome")
        } else {
            String::from_str("Safari")
        }
    } else {
        replace_char(token, '/', " ")
    }
}

/// The platform block of `user_agent`.
fn platform_block(user_agent: &str) -> (r: Option<&str>)
    ensures
        r matches Some(b) ==> block_of(user_agent@) == Some(b@),
        r is None ==> block_of(user_agent@) is None,
{
    let begin = match find(user_agent, "(", 0) {
        Some(b) => b,
        None => return None,
    };
    let end = match find(user_agent, ")", 0) {
        Some(e) => e,
        None => return None,
    };
    proof {
        lemma_find_from_bounds(user_agent@, "("@, 0);
        lemma_find_from_bounds(user_agent@, ")"@, 0);
    }
    if begin < end {
        Some(user_agent.substring_char(begin + 1, end))
    } else {
        Some(user_agent.substring_char(0, 0))
    }
}

/// The platform of `user_agent`.
pub fn platform(user_agent: &str) -> (r: Platform)
    ensures
        r@ == platform_of(user_agent@),
{
    let block = match platform_block(user_agent) {
        Some(b) => b,
        None => return Platform::Unknown(String::from_str("Unknown")),
    };
    if contains(block, "Win32") || contains(block, "Win64") {
        Platform::Windows
    } else if contains(block, "Linux") {
        Platform::Linux
    } else if contains(block, "Mac OS X") {
        Platform::MacOS
    } else {
        Platform::Unknown(String::from_str(block))
    }
}

/// The distribution label of a Windows block.
fn windows_distro(block: &str) -> (r: String)
    ensures
        r@ == windows_label(block@),
{
    let n = match find(block, "NT", 0) {
        Some(n) => n,
        None => return String::from_str("Windows"),
    };
    let d = match find(block, ".", n) {
        Some(d) => d,
        None => return String::from_str("Windows"),
    };
    proof {
        lemma_find_from_bounds(block@, "NT"@, 0);
        lemma_find_from_bounds(block@, "."@, n as int);
    }
    let version = if d - n >= NT_VERSION_OFFSET {
        block.substring_char(n + NT_VERSION_OFFSET, d)
    } else {
        block.substring_char(d, d)
    };
    assert(version@ == span(block@, n + NT_VERSION_OFFSET, d as int));
    String::from_str("Windows ").concat(version)
}

/// The distribution label of a Linux block.
fn linux_distro(block: &str) -> (r: String)
    ensures
        r@ == linux_label(block@),
{
    let len = block.unicode_len();
    let scoped = if contains(block, "X11") || contains(block, "Wayland") {
        match find(block, ";", 0) {
            None => return String::from_str("Unknown Linux"),
            Some(k) => {
                proof {
                    lemma_find_from_bounds(block@, ";"@, 0);
                }
                let from = if len - k >= SEPARATOR_WIDTH {
                    k + SEPARATOR_WIDTH
                } else {
                    len
                };
                block.substring_char(from, len)
            },
        }
    } else {
        block
    };
    assert(linux_scope(block@) == Some(scoped@));
    if starts_with(scoped, "Linux") {
        return String::from_str("Unknown Linux");
    }
    match find(scoped, ";", 0) {
        None => String::from_str("Unknown Linux"),
        Some(e) => {
            proof {
                lemma_find_from_bounds(scoped@, ";"@, 0);
            }
            String::from_str(scoped.substring_char(0, e))
        },
    }
}

/// The distribution label of a macOS block.
fn mac_distro(block: &str) -> (r: String)
    ensures
        r@ == mac_label(block@),
{
    let m = match find(block, "Mac OS X", 0) {
        Some(m) => m,
        None => return String::new(),
    };
    proof {
        lemma_find_from_bounds(block@, "Mac OS X"@, 0);
        reveal_strlit(".");
    }
    let len = block.unicode_len();
    let rest = block.substring_char(m, len);
    match find(rest, ";", 0) {
        Some(e) => {
            proof {
                lemma_find_from_bounds(rest@, ";"@, 0);
            }
            String::from_str(rest.substring_char(0, e))
        },
        None => replace_char(rest, '_', "."),
    }
}

/// The distribution label of `user_agent`: none where it has no platform
/// block.
pub fn distro(user_agent: &str) -> (r: Option<String>)
    ensures
        r.deep_view() == distro_of(user_agent@),
{
    let block = match platform_block(user_agent) {
        Some(b) => b,
        None => return None,
    };
    let label = if contains(block, "Win32") || contains(block, "Win64") {
        windows_distro(block)
    } else if contains(block, "Linux") {
        linux_distro(block)
    } else if contains(block, "Mac OS X") {
        mac_distro(block)
    } else {
        String::from_str(block)
    };
    Some(label)
}

} // verus!
