//! Chrome's command line, the addresses of its DevTools HTTP endpoints, and
//! the choice of the Chrome binary.
use crate::error::{ErrorView, WebDriverError};
use crate::text::{
    cat2, cat3, decimal, decimal_string, find_char, first_index_of, has_prefix,
    percent_encoded, strip_prefix, url_encode,
};
use vstd::prelude::*;
use vstd::string::*;
use vstd::utf8::encode_utf8;

verus! {

/// The views of a sequence of strings.
pub open spec fn strings_view(s: Seq<String>) -> Seq<Seq<char>> {
    Seq::new(s.len(), |i: int| s[i]@)
}

/// Appends a string to a list under construction.
pub fn push_str(v: &mut Vec<String>, s: &str)
    ensures
        strings_view(final(v)@) == strings_view(old(v)@).push(s@),
{
    v.push(String::from_str(s));
    assert(strings_view(v@) =~= strings_view(old(v)@).push(s@));
}

/// Appends an owned string to a list under construction.
pub fn push_string(v: &mut Vec<String>, s: String)
    ensures
        strings_view(final(v)@) == strings_view(old(v)@).push(s@),
{
    let ghost sv = s@;
    v.push(s);
    assert(strings_view(v@) =~= strings_view(old(v)@).push(sv));
}

/// An empty list of strings.
pub fn new_strings() -> (r: Vec<String>)
    ensures
        strings_view(r@) == Seq::<Seq<char>>::empty(),
{
    let r: Vec<String> = Vec::new();
    assert(strings_view(r@) =~= Seq::<Seq<char>>::empty());
    r
}

/// Whether Chrome runs headless, from the value of the `HEADLESS`
/// environment variable (`None` where it is unset or not Unicode): headless
/// unless the value is `0`, `false` or `no`.
pub fn headless_from_env(value: Option<&str>) -> (r: bool)
    ensures
        r == match value {
            Some(v) => !(v@ == "0"@ || v@ == "false"@ || v@ == "no"@),
            None => true,
        },
{
    match value {
        Some(v) => {
            let s = String::from_str(v);
            !(s == String::from_str("0") || s == String::from_str("false") || s == String::from_str(
                "no",
            ))
        },
        None => true,
    }
}

/// The command line arguments of the Chrome that the server launches.
pub open spec fn chrome_args_view(debug_port: u16, headless: bool, data_dir: Seq<char>) -> Seq<
    Seq<char>,
> {
    (if headless {
        seq!["--headless=new"@]
    } else {
        Seq::empty()
    }) + seq![
        "--remote-debugging-port="@ + decimal(debug_port as nat),
        "--user-data-dir="@ + data_dir,
        "--no-sandbox"@,
        "--disable-gpu"@,
        "--disable-dev-shm-usage"@,
        "--disable-background-networking"@,
        "--disable-extensions"@,
        "--disable-sync"@,
        "--disable-translate"@,
        "--metrics-recording-only"@,
        "--no-first-run"@,
        "--no-default-browser-check"@,
        "--safebrowsing-disable-auto-update"@,
        "--ignore-certificate-errors"@,
        "--window-size=1800,1200"@,
        "about:blank"@,
    ]
}

/// The command line arguments of the Chrome that the server launches, with
/// its DevTools port, whether it is headless, and its profile directory.
pub fn chrome_args(debug_port: u16, headless: bool, data_dir: &str) -> (r: Vec<String>)
    ensures
        strings_view(r@) == chrome_args_view(debug_port, headless, data_dir@),
{
    let mut args = new_strings();
    if headless {
        push_str(&mut args, "--headless=new");
    }
    let port = decimal_string(debug_port as u64);
    push_string(&mut args, cat2("--remote-debugging-port=", port.as_str()));
    push_string(&mut args, cat2("--user-data-dir=", data_dir));
    push_str(&mut args, "--no-sandbox");
    push_str(&mut args, "--disable-gpu");
    push_str(&mut args, "--disable-dev-shm-usage");
    push_str(&mut args, "--disable-background-networking");
    push_str(&mut args, "--disable-extensions");
    push_str(&mut args, "--disable-sync");
    push_str(&mut args, "--disable-translate");
    push_str(&mut args, "--metrics-recording-only");
    push_str(&mut args, "--no-first-run");
    push_str(&mut args, "--no-default-browser-check");
    push_str(&mut args, "--safebrowsing-disable-auto-update");
    push_str(&mut args, "--ignore-certificate-errors");
    push_str(&mut args, "--window-size=1800,1200");
    push_str(&mut args, "about:blank");
    assert(strings_view(args@) =~= chrome_args_view(debug_port, headless, data_dir@));
    args
}

/// The command line arguments of the visible Chrome that `connect` launches.
pub open spec fn visible_chrome_args_view(debug_port: u16) -> Seq<Seq<char>> {
    seq![
        "--remote-debugging-port="@ + decimal(debug_port as nat),
        "--window-size=1800,1200"@,
        "--ignore-certificate-errors"@,
        "--no-first-run"@,
        "--disable-background-networking"@,
        "about:blank"@,
    ]
}

/// The command line arguments of the visible Chrome that `connect` launches.
pub fn visible_chrome_args(debug_port: u16) -> (r: Vec<String>)
    ensures
        strings_view(r@) == visible_chrome_args_view(debug_port),
{
    let mut args = new_strings();
    let port = decimal_string(debug_port as u64);
    push_string(&mut args, cat2("--remote-debugging-port=", port.as_str()));
    push_str(&mut args, "--window-size=1800,1200");
    push_str(&mut args, "--ignore-certificate-errors");
    push_str(&mut args, "--no-first-run");
    push_str(&mut args, "--disable-background-networking");
    push_str(&mut args, "about:blank");
    assert(strings_view(args@) =~= visible_chrome_args_view(debug_port));
    args
}

/// `ws_url` with its host and port replaced by `host_port`, where it is a
/// `ws://` URL with a path; otherwise `ws_url` unchanged.
pub open spec fn rewritten_ws(ws_url: Seq<char>, host_port: Seq<char>) -> Seq<char> {
    if has_prefix(ws_url, "ws://"@) {
        let path = ws_url.subrange("ws://"@.len() as int, ws_url.len() as int);
        match first_index_of(path, '/') {
            Some(k) => "ws://"@ + host_port + path.subrange(k, path.len() as int),
            None => ws_url,
        }
    } else {
        ws_url
    }
}

proof fn lemma_first_index_bound(s: Seq<char>, c: char)
    ensures
        first_index_of(s, c) matches Some(k) ==> 0 <= k < s.len() && s[k] == c,
    decreases s.len(),
{
    if s.len() > 0 && s[0] != c {
        lemma_first_index_bound(s.drop_first(), c);
    }
}

/// Rewrites the host and port of a `ws://` URL to `host_port`.
pub fn rewrite_ws_host(ws_url: &str, host_port: &str) -> (r: String)
    ensures
        r@ == rewritten_ws(ws_url@, host_port@),
{
    proof {
        reveal_strlit("ws://");
    }
    match strip_prefix(ws_url, "ws://") {
        Some(path) => {
            match find_char(path.as_str(), '/') {
                Some(slash) => {
                    proof {
                        lemma_first_index_bound(path@, '/');
                    }
                    let n = path.as_str().unicode_len();
                    let tail = path.as_str().substring_char(slash, n);
                    cat3("ws://", host_port, tail)
                },
                None => String::from_str(ws_url),
            }
        },
        None => String::from_str(ws_url),
    }
}

/// Rewriting twice with the same host and port changes nothing more than
/// rewriting once.
pub proof fn rewrite_ws_host_idempotent(ws_url: Seq<char>, host_port: Seq<char>)
    requires
        first_index_of(host_port, '/') is None,
    ensures
        rewritten_ws(rewritten_ws(ws_url, host_port), host_port) == rewritten_ws(ws_url, host_port),
{
    reveal_strlit("ws://");
    let p = "ws://"@;
    if has_prefix(ws_url, p) {
        let path = ws_url.subrange(5, ws_url.len() as int);
        lemma_first_index_bound(path, '/');
        match first_index_of(path, '/') {
            Some(k) => {
                let tail = path.subrange(k, path.len() as int);
                let r = p + host_port + tail;
                assert(r.subrange(0, 5) =~= p);
                let path2 = r.subrange(5, r.len() as int);
                assert(path2 =~= host_port + tail);
                lemma_first_index_concat(host_port, tail, '/');
                assert(tail[0] == '/');
                assert(first_index_of(tail, '/') == Some(0int));
                assert(path2.subrange(host_port.len() as int, path2.len() as int) =~= tail);
            },
            None => {},
        }
    }
}

proof fn lemma_first_index_concat(a: Seq<char>, b: Seq<char>, c: char)
    requires
        first_index_of(a, c) is None,
    ensures
        first_index_of(a + b, c) == match first_index_of(b, c) {
            Some(k) => Some(k + a.len()),
            None => None::<int>,
        },
    decreases a.len(),
{
    if a.len() > 0 {
        assert((a + b).drop_first() =~= a.drop_first() + b);
        lemma_first_index_concat(a.drop_first(), b, c);
    } else {
        assert(a + b =~= b);
    }
}

/// `http://127.0.0.1:<port>`: the DevTools HTTP address of the local Chrome.
pub open spec fn local_base_url_view(port: u16) -> Seq<char> {
    "http://127.0.0.1:"@ + decimal(port as nat)
}

/// The DevTools HTTP address of the Chrome on this machine at `port`.
pub fn local_base_url(port: u16) -> (r: String)
    ensures
        r@ == local_base_url_view(port),
{
    let p = decimal_string(port as u64);
    cat2("http://127.0.0.1:", p.as_str())
}

/// The address that answers once Chrome's DevTools endpoint is up.
pub fn version_url(port: u16) -> (r: String)
    ensures
        r@ == local_base_url_view(port) + "/json/version"@,
{
    let base = local_base_url(port);
    cat2(base.as_str(), "/json/version")
}

/// The endpoint that opens a new target on `url`: `<base>/json/new?<url percent-encoded>`.
pub fn new_target_endpoint(base_url: &str, url: &str) -> (r: String)
    ensures
        r@ == base_url@ + "/json/new?"@ + percent_encoded(encode_utf8(url@)),
{
    let enc = url_encode(url);
    cat3(base_url, "/json/new?", enc.as_str())
}

/// The endpoint that closes target `target_id`: `<base>/json/close/<id>`.
pub fn close_target_endpoint(base_url: &str, target_id: &str) -> (r: String)
    ensures
        r@ == base_url@ + "/json/close/"@ + target_id@,
{
    cat3(base_url, "/json/close/", target_id)
}

/// A browser target as Chrome's HTTP API describes it.
pub struct TargetInfo {
    pub id: String,
    pub web_socket_debugger_url: Option<String>,
}

/// A target whose WebSocket URL, where it has one and `base_url` is an
/// `http://` address, points at the host and port of `base_url`.
pub fn finish_target(base_url: &str, target: TargetInfo) -> (r: TargetInfo)
    ensures
        r.id@ == target.id@,
        match target.web_socket_debugger_url {
            None => r.web_socket_debugger_url is None,
            Some(ws) => r.web_socket_debugger_url matches Some(w) && w@ == if has_prefix(
                base_url@,
                "http://"@,
            ) {
                rewritten_ws(ws@, base_url@.subrange("http://"@.len() as int, base_url@.len() as int))
            } else {
                ws@
            },
        },
{
    let TargetInfo { id, web_socket_debugger_url } = target;
    match web_socket_debugger_url {
        Some(ws) => {
            match strip_prefix(base_url, "http://") {
                Some(host_port) => {
                    let rewritten = rewrite_ws_host(ws.as_str(), host_port.as_str());
                    TargetInfo { id, web_socket_debugger_url: Some(rewritten) }
                },
                None => TargetInfo { id, web_socket_debugger_url: Some(ws) },
            }
        },
        None => TargetInfo { id, web_socket_debugger_url: None },
    }
}

/// The WebSocket URL of a new session's target, which it must have.
pub fn target_ws_url(target: &TargetInfo) -> (r: Result<String, WebDriverError>)
    ensures
        match target.web_socket_debugger_url {
            Some(ws) => r matches Ok(w) && w@ == ws@,
            None => r matches Err(e) && e@ == ErrorView::SessionNotCreated(
                "No WebSocket URL for target"@,
            ),
        },
{
    match &target.web_socket_debugger_url {
        Some(ws) => Ok(ws.clone()),
        None => Err(
            WebDriverError::SessionNotCreated(String::from_str("No WebSocket URL for target")),
        ),
    }
}

/// The programs that are looked up on `PATH`, in order.
pub open spec fn path_candidates_view() -> Seq<Seq<char>> {
    seq![
        "google-chrome-stable"@,
        "google-chrome"@,
        "chromium-browser"@,
        "chromium"@,
        "chrome"@,
    ]
}

/// The absolute paths that are tried after the programs on `PATH`, in order.
pub open spec fn absolute_candidates_view() -> Seq<Seq<char>> {
    seq![
        "/Applications/Google Chrome.app/Contents/MacOS/Google Chrome"@,
        "/Applications/Chromium.app/Contents/MacOS/Chromium"@,
    ]
}

/// The programs that are looked up on `PATH`, in order.
pub fn path_candidates() -> (r: Vec<String>)
    ensures
        strings_view(r@) == path_candidates_view(),
{
    let mut v = new_strings();
    push_str(&mut v, "google-chrome-stable");
    push_str(&mut v, "google-chrome");
    push_str(&mut v, "chromium-browser");
    push_str(&mut v, "chromium");
    push_str(&mut v, "chrome");
    assert(strings_view(v@) =~= path_candidates_view());
    v
}

/// The absolute paths that are tried after the programs on `PATH`, in order.
pub fn absolute_candidates() -> (r: Vec<String>)
    ensures
        strings_view(r@) == absolute_candidates_view(),
{
    let mut v = new_strings();
    push_str(&mut v, "/Applications/Google Chrome.app/Contents/MacOS/Google Chrome");
    push_str(&mut v, "/Applications/Chromium.app/Contents/MacOS/Chromium");
    assert(strings_view(v@) =~= absolute_candidates_view());
    v
}

/// The first candidate that is present, given which candidates were found.
pub open spec fn first_found(names: Seq<Seq<char>>, found: Seq<bool>) -> Option<Seq<char>>
    decreases names.len(),
{
    if names.len() == 0 || found.len() == 0 {
        None
    } else if found[0] {
        Some(names[0])
    } else {
        first_found(names.drop_first(), found.drop_first())
    }
}

/// The installed Chrome: the first program found on `PATH`, else the first
/// absolute path that exists. `on_path[i]` and `at_path[i]` say whether the
/// `i`-th candidate of each list was found.
pub fn installed_chrome(on_path: &Vec<bool>, at_path: &Vec<bool>) -> (r: Option<String>)
    ensures
        (match r {
            Some(s) => Some(s@),
            None => None,
        }) == match first_found(path_candidates_view(), on_path@) {
            Some(n) => Some(n),
            None => first_found(absolute_candidates_view(), at_path@),
        },
{
    let names = path_candidates();
    match pick_first(&names, on_path) {
        Some(n) => Some(n),
        None => {
            let paths = absolute_candidates();
            pick_first(&paths, at_path)
        },
    }
}

fn pick_first(names: &Vec<String>, found: &Vec<bool>) -> (r: Option<String>)
    ensures
        (match r {
            Some(s) => Some(s@),
            None => None,
        }) == first_found(strings_view(names@), found@),
{
    let mut i: usize = 0;
    assert(strings_view(names@).subrange(0, names.len() as int) =~= strings_view(names@));
    assert(found@.subrange(0, found.len() as int) =~= found@);
    while i < names.len() && i < found.len()
        invariant
            i <= names.len(),
            i <= found.len(),
            first_found(strings_view(names@), found@) == first_found(
                strings_view(names@).subrange(i as int, names.len() as int),
                found@.subrange(i as int, found.len() as int),
            ),
        decreases names.len() - i,
    {
        if found[i] {
            return Some(names[i].clone());
        }
        proof {
            let a = strings_view(names@).subrange(i as int, names.len() as int);
            let b = found@.subrange(i as int, found.len() as int);
            assert(a.drop_first() =~= strings_view(names@).subrange(i + 1, names.len() as int));
            assert(b.drop_first() =~= found@.subrange(i + 1, found.len() as int));
        }
        i = i + 1;
    }
    assert(strings_view(names@).subrange(i as int, names.len() as int).len() == 0 || found@.subrange(
        i as int,
        found.len() as int,
    ).len() == 0);
    None
}

/// The Chrome binary to launch: the one `CHROME_BIN` names, else the installed
/// one; `None` means that Chrome for Testing must be downloaded.
pub fn choose_chrome_binary(chrome_bin_env: Option<String>, installed: Option<String>) -> (r:
    Option<String>)
    ensures
        match chrome_bin_env {
            Some(b) => r == Some(b),
            None => r == installed,
        },
{
    match chrome_bin_env {
        Some(b) => Some(b),
        None => installed,
    }
}

/// The permission bits of an executable file: `mode` with the execute bits
/// for owner, group and others set.
pub fn executable_mode(mode: u32) -> (r: u32)
    ensures
        r == mode | 0o111,
{
    mode | 0o111
}

/// The platforms that Chrome for Testing is built for.
pub enum PlatformKind {
    Linux64,
    LinuxArm64,
    MacX64,
    MacArm64,
    Win32,
    Win64,
}

/// The path of the Chrome executable below the cache directory, as its
/// components: the version, `chrome-<platform name>`, then the place of the
/// executable in the unpacked archive.
pub open spec fn cached_executable_view(version: Seq<char>, platform_name: Seq<char>, kind: PlatformKind) -> Seq<Seq<char>> {
    seq![version, "chrome-"@ + platform_name] + match kind {
        PlatformKind::Linux64 | PlatformKind::LinuxArm64 | PlatformKind::MacX64 => seq!["chrome"@],
        PlatformKind::MacArm64 => seq![
            "Google Chrome for Testing.app"@,
            "Contents"@,
            "MacOS"@,
            "Google Chrome for Testing"@,
        ],
        PlatformKind::Win32 | PlatformKind::Win64 => seq!["chrome.exe"@],
    }
}

/// The path components of the cached Chrome executable.
pub fn cached_chrome_executable(version: &str, platform_name: &str, kind: PlatformKind) -> (r: Vec<String>)
    ensures
        strings_view(r@) == cached_executable_view(version@, platform_name@, kind),
{
    let mut v = new_strings();
    push_str(&mut v, version);
    push_string(&mut v, cat2("chrome-", platform_name));
    match kind {
        PlatformKind::Linux64 | PlatformKind::LinuxArm64 | PlatformKind::MacX64 => {
            push_str(&mut v, "chrome");
        },
        PlatformKind::MacArm64 => {
            push_str(&mut v, "Google Chrome for Testing.app");
            push_str(&mut v, "Contents");
            push_str(&mut v, "MacOS");
            push_str(&mut v, "Google Chrome for Testing");
        },
        PlatformKind::Win32 | PlatformKind::Win64 => {
            push_str(&mut v, "chrome.exe");
        },
    }
    assert(strings_view(v@) =~= cached_executable_view(version@, platform_name@, kind));
    v
}

} // verus!
