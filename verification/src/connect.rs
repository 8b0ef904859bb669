//! The `connect` command line and the server's ports: argument parsing,
//! and the addresses through which a visible Chrome is registered.
use crate::chrome::strings_view;
use crate::json::{json_string, obj1, Json, JsonView};
use crate::text::{cat2, decimal, decimal_string, parse_u16, parsed_u16};
use vstd::prelude::*;

verus! {

/// The options of `connect`.
#[derive(Debug)]
pub struct ConnectArgs {
    pub server: String,
    pub debug_port: u16,
}

/// Why the `connect` command line was refused.
#[derive(Debug)]
pub enum ConnectArgsError {
    /// An argument that is not an option with its value.
    UnknownArgument(String),
    /// A `--port` value that is not a port number.
    InvalidPort(String),
}

pub enum ArgsOutcome {
    Parsed(Seq<char>, u16),
    Unknown(Seq<char>),
    BadPort(Seq<char>),
}

/// The outcome of parsing `args` from position `i`, with the options read so far.
pub open spec fn parse_from(args: Seq<Seq<char>>, i: int, server: Seq<char>, port: u16) -> ArgsOutcome
    decreases args.len() - i,
{
    if i < 0 || i >= args.len() {
        ArgsOutcome::Parsed(server, port)
    } else if args[i] == "--server"@ && i + 1 < args.len() {
        parse_from(args, i + 2, args[i + 1], port)
    } else if args[i] == "--port"@ && i + 1 < args.len() {
        match parsed_u16(args[i + 1]) {
            Some(p) => parse_from(args, i + 2, server, p),
            None => ArgsOutcome::BadPort(args[i + 1]),
        }
    } else {
        ArgsOutcome::Unknown(args[i])
    }
}

/// The outcome of parsing the `connect` command line: `--server <url>`
/// (default `http://localhost:4444`) and `--port <port>` (default 9222), in
/// any order; the last one given counts.
pub open spec fn connect_outcome(args: Seq<Seq<char>>) -> ArgsOutcome {
    parse_from(args, 0, "http://localhost:4444"@, 9222)
}

/// Parses the `connect` command line.
pub fn parse_connect_args(args: &Vec<String>) -> (r: Result<ConnectArgs, ConnectArgsError>)
    ensures
        match connect_outcome(strings_view(args@)) {
            ArgsOutcome::Parsed(s, p) => r matches Ok(a) && a.server@ == s && a.debug_port == p,
            ArgsOutcome::Unknown(x) => r matches Err(ConnectArgsError::UnknownArgument(y)) && y@ == x,
            ArgsOutcome::BadPort(x) => r matches Err(ConnectArgsError::InvalidPort(y)) && y@ == x,
        },
{
    let ghost sv = strings_view(args@);
    let mut server = String::from_str("http://localhost:4444");
    let mut debug_port: u16 = 9222;
    let mut i: usize = 0;
    let server_flag = String::from_str("--server");
    let port_flag = String::from_str("--port");
    while i < args.len()
        invariant
            sv == strings_view(args@),
            i <= args.len(),
            server_flag@ == "--server"@,
            port_flag@ == "--port"@,
            connect_outcome(sv) == parse_from(sv, i as int, server@, debug_port),
        decreases args.len() - i,
    {
        assert(sv[i as int] == args@[i as int]@);
        if args[i] == server_flag && i + 1 < args.len() {
            assert(sv[i + 1] == args@[i + 1]@);
            server = args[i + 1].clone();
            i = i + 2;
        } else if args[i] == port_flag && i + 1 < args.len() {
            assert(sv[i + 1] == args@[i + 1]@);
            match parse_u16(args[i + 1].as_str()) {
                Some(p) => {
                    debug_port = p;
                    i = i + 2;
                },
                None => {
                    return Err(ConnectArgsError::InvalidPort(args[i + 1].clone()));
                },
            }
        } else {
            return Err(ConnectArgsError::UnknownArgument(args[i].clone()));
        }
    }
    Ok(ConnectArgs { server, debug_port })
}

/// A port from an environment variable: its value where that is a port
/// number, `default` otherwise.
pub fn port_or_default(value: Option<&str>, default: u16) -> (r: u16)
    ensures
        r == match value {
            Some(v) => match parsed_u16(v@) {
                Some(p) => p,
                None => default,
            },
            None => default,
        },
{
    match value {
        Some(v) => match parse_u16(v) {
            Some(p) => p,
            None => default,
        },
        None => default,
    }
}

/// The administration endpoint of a server: `<server>/_admin/chrome`.
pub fn admin_url(server: &str) -> (r: String)
    ensures
        r@ == server@ + "/_admin/chrome"@,
{
    cat2(server, "/_admin/chrome")
}

/// The body that registers the visible Chrome with a server in a
/// container: `{"url": "http://host.docker.internal:<port>"}`.
pub fn register_body(debug_port: u16) -> (r: Json)
    ensures
        r@ == JsonView::Object(
            seq![("url"@, JsonView::Str("http://host.docker.internal:"@ + decimal(debug_port as nat)))],
        ),
{
    let p = decimal_string(debug_port as u64);
    obj1("url", json_string(cat2("http://host.docker.internal:", p.as_str())))
}

/// Every port number written in decimal reads back as itself.
pub proof fn port_round_trip(p: u16)
    ensures
        parsed_u16(decimal(p as nat)) == Some(p),
{
    lemma_decimal_digits(p as nat);
    crate::text::lemma_decimal_value(p as nat);
}

proof fn lemma_decimal_digits(n: nat)
    ensures
        crate::text::all_digits(decimal(n)),
        decimal(n).len() > 0,
        decimal(n)[0] != '+',
    decreases n,
{
    if n >= 10 {
        lemma_decimal_digits(n / 10);
        let d = decimal(n / 10) + seq![crate::text::digit_char(n % 10)];
        assert forall|i: int| 0 <= i < d.len() implies crate::text::is_digit(#[trigger] d[i]) by {
            if i < decimal(n / 10).len() {
                assert(d[i] == decimal(n / 10)[i]);
            }
        }
    }
}

} // verus!
