//! Sign-in support for the 88code usage service: errors, where the token is
//! kept, and which browser to open.

use vstd::prelude::*;
use vstd::string::StringExecFns;
use crate::text::chars_of;
use crate::text::push_char;

verus! {

/// What can go wrong while signing in and keeping the token.
#[derive(Debug)]
pub enum Code88Error {
    NoBrowser,
    BrowserLaunchFailed(String),
    PortInUse(u16),
    CdpConnectionFailed(String),
    WebSocketError(String),
    CdpResponseError(String),
    Timeout,
    NoToken,
    ApiError(i32),
    ParseError(String),
    IoError(String),
    HttpError(String),
}

/// `name` inside directory `dir`, as a relative path joins on Unix.
pub open spec fn join_path(dir: Seq<char>, name: Seq<char>) -> Seq<char> {
    if dir.len() == 0 {
        name
    } else if dir.last() == '/' {
        dir + name
    } else {
        dir + seq!['/'] + name
    }
}

pub open spec fn token_file_name() -> Seq<char> {
    seq!['8', '8', 'c', 'o', 'd', 'e', '-', 't', 'o', 'k', 'e', 'n', '.', 'j', 's', 'o', 'n']
}

/// The token file inside the configuration directory.
pub fn token_path(codex_home: &str) -> (r: String)
    ensures
        r@ == join_path(codex_home@, token_file_name()),
{
    let name = "88code-token.json";
    proof {
        reveal_strlit("88code-token.json");
        assert(name@ =~= token_file_name());
    }
    let home = chars_of(codex_home);
    let mut r = String::from_str(codex_home);
    if home.len() > 0 && home[home.len() - 1] != '/' {
        push_char(&mut r, '/');
    }
    r.append(name);
    assert(r@ =~= join_path(codex_home@, token_file_name()));
    r
}

/// Browser commands looked up on the search path, in order of preference.
pub fn browser_names() -> (r: Vec<String>)
    ensures
        r@.len() == 6,
        r@[0]@ == "google-chrome"@,
        r@[1]@ == "google-chrome-stable"@,
        r@[2]@ == "chromium"@,
        r@[3]@ == "chromium-browser"@,
        r@[4]@ == "microsoft-edge"@,
        r@[5]@ == "microsoft-edge-stable"@,
{
    vec![
        String::from_str("google-chrome"),
        String::from_str("google-chrome-stable"),
        String::from_str("chromium"),
        String::from_str("chromium-browser"),
        String::from_str("microsoft-edge"),
        String::from_str("microsoft-edge-stable"),
    ]
}

/// Install locations tried when no command is found, in order.
pub fn browser_fallback_paths() -> (r: Vec<String>)
    ensures
        r@.len() == 6,
        r@[0]@ == "/usr/bin/google-chrome"@,
        r@[1]@ == "/usr/bin/google-chrome-stable"@,
        r@[2]@ == "/usr/bin/chromium"@,
        r@[3]@ == "/usr/bin/chromium-browser"@,
        r@[4]@ == "/usr/bin/microsoft-edge"@,
        r@[5]@ == "/snap/bin/chromium"@,
{
    vec![
        String::from_str("/usr/bin/google-chrome"),
        String::from_str("/usr/bin/google-chrome-stable"),
        String::from_str("/usr/bin/chromium"),
        String::from_str("/usr/bin/chromium-browser"),
        String::from_str("/usr/bin/microsoft-edge"),
        String::from_str("/snap/bin/chromium"),
    ]
}

/// Index of the first resolved command, or the length when none resolved.
pub open spec fn first_resolved(resolved: Seq<Option<String>>) -> nat
    decreases resolved.len(),
{
    if resolved.len() == 0 || resolved[0] is Some {
        0
    } else {
        1 + first_resolved(resolved.drop_first())
    }
}

/// Index of the first install location found present, or the length.
pub open spec fn first_present(present: Seq<bool>) -> nat
    decreases present.len(),
{
    if present.len() == 0 || present[0] {
        0
    } else {
        1 + first_present(present.drop_first())
    }
}

/// The browser to use, from what a search for each command in
/// [`browser_names`] resolved to and which of the install locations
/// `fallback` are present: the first resolved command, else the first
/// present location, else none.
pub fn detect_browser(resolved: &Vec<Option<String>>, fallback: &Vec<String>, present: &Vec<bool>) -> (r: Option<String>)
    requires
        present@.len() <= fallback@.len(),
    ensures
        first_resolved(resolved@) < resolved@.len() ==> (r matches Some(p) && p@ == resolved@[first_resolved(resolved@) as int]->0@),
        first_resolved(resolved@) == resolved@.len() && first_present(present@) < present@.len() ==> (r matches Some(p) && p@ == fallback@[first_present(present@) as int]@),
        first_resolved(resolved@) == resolved@.len() && first_present(present@) == present@.len() ==> r is None,
{
    let mut i: usize = 0;
    assert(resolved@.skip(0) =~= resolved@);
    while i < resolved.len()
        invariant
            i <= resolved@.len(),
            first_resolved(resolved@) == i + first_resolved(resolved@.skip(i as int)),
        decreases resolved.len() - i,
    {
        if let Some(p) = &resolved[i] {
            assert(resolved@.skip(i as int)[0] == resolved@[i as int]);
            return Some(p.clone());
        }
        assert(resolved@.skip(i as int).drop_first() =~= resolved@.skip(i + 1));
        i += 1;
    }
    let mut j: usize = 0;
    assert(present@.skip(0) =~= present@);
    while j < present.len()
        invariant
            present@.len() <= fallback@.len(),
            first_resolved(resolved@) == resolved@.len(),
            j <= present@.len(),
            first_present(present@) == j + first_present(present@.skip(j as int)),
        decreases present.len() - j,
    {
        if present[j] {
            assert(present@.skip(j as int)[0] == present@[j as int]);
            return Some(fallback[j].clone());
        }
        assert(present@.skip(j as int).drop_first() =~= present@.skip(j + 1));
        j += 1;
    }
    None
}

} // verus!

verus! {

/// The token of a sign-in answer: an API error unless the answer is `ok`
/// with code zero, `NoToken` when such an answer carries none.
pub fn check_token_response(ok: bool, code: i32, token: Option<String>) -> (r: Result<String, Code88Error>)
    ensures
        !(ok && code == 0) ==> (r matches Err(Code88Error::ApiError(c)) && c == code),
        ok && code == 0 && token is None ==> (r matches Err(Code88Error::NoToken)),
        ok && code == 0 && token is Some ==> r == Ok::<String, Code88Error>(token->0),
{
    if !ok || code != 0 {
        return Err(Code88Error::ApiError(code));
    }
    match token {
        Some(t) => Ok(t),
        None => Err(Code88Error::NoToken),
    }
}

} // verus!

verus! {

/// The debugging port tried first.
pub const DEFAULT_DEBUG_PORT: u16 = 9222;

/// Debugging ports in the order they are tried.
pub open spec fn debug_ports() -> Seq<u16> {
    seq![9222u16, 9223u16, 9224u16, 9225u16, 9226u16]
}

pub fn candidate_debug_ports() -> (r: Vec<u16>)
    ensures
        r@ == debug_ports(),
{
    let r = vec![DEFAULT_DEBUG_PORT, 9223, 9224, 9225, 9226];
    assert(r@ =~= debug_ports());
    r
}

/// The first port of [`candidate_debug_ports`] found free, given whether
/// each one could be bound.
pub fn find_available_port(available: &Vec<bool>) -> (r: Option<u16>)
    requires
        available@.len() <= debug_ports().len(),
    ensures
        first_present(available@) < available@.len() ==> r == Some(debug_ports()[first_present(available@) as int]),
        first_present(available@) == available@.len() ==> r is None,
{
    let ports = candidate_debug_ports();
    let mut j: usize = 0;
    assert(available@.skip(0) =~= available@);
    while j < available.len()
        invariant
            available@.len() <= ports@.len(),
            ports@ == debug_ports(),
            j <= available@.len(),
            first_present(available@) == j + first_present(available@.skip(j as int)),
        decreases available.len() - j,
    {
        if available[j] {
            assert(available@.skip(j as int)[0] == available@[j as int]);
            return Some(ports[j]);
        }
        assert(available@.skip(j as int).drop_first() =~= available@.skip(j + 1));
        j += 1;
    }
    None
}

/// Command-line arguments that open `url` in a browser with remote
/// debugging on `port` and its own profile directory.
pub fn browser_launch_args(port: u16, user_data_dir: &str, url: &str) -> (r: Vec<String>)
    ensures
        r@.len() == 5,
        r@[0]@ == "--remote-debugging-port="@ + crate::text::dec(port as nat),
        r@[1]@ == "--no-first-run"@,
        r@[2]@ == "--no-default-browser-check"@,
        r@[3]@ == "--user-data-dir="@ + user_data_dir@,
        r@[4]@ == url@,
{
    let mut port_arg = String::from_str("--remote-debugging-port=");
    crate::text::push_decimal(&mut port_arg, port as u64);
    let mut dir_arg = String::from_str("--user-data-dir=");
    dir_arg.append(user_data_dir);
    let r = vec![
        port_arg,
        String::from_str("--no-first-run"),
        String::from_str("--no-default-browser-check"),
        dir_arg,
        String::from_str(url),
    ];
    r
}

} // verus!
