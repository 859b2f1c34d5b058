use vstd::prelude::*;
use vstd::string::*;
use crate::text::{decimal, decimal_string, parse_u16, parse_u16_spec};

verus! {

/// The directory that the pages are served from.
pub const PAGES_DIR: &'static str = "/home/sasha/Projects/bang-web/src/pages";

/// The error for a command line of the wrong length.
pub open spec fn wrong_args_message() -> Seq<char> {
    "Wrong amount of args"@
}

/// The error for a port argument that is no `u16`.
pub open spec fn bad_port_message() -> Seq<char> {
    "Port number is not a u16"@
}

/// The path of a page file: the pages directory, a slash, then the file's name.
pub fn file(file_name: &str) -> (r: String)
    ensures
        r@ == PAGES_DIR@ + seq!['/'] + file_name@,
{
    proof {
        reveal_strlit("/");
    }
    let mut path = PAGES_DIR.to_owned();
    path.append("/");
    path.append(file_name);
    path
}

/// The address a server listens on: host, a colon, then the port in decimal.
pub fn server_address(url: &str, port: u16) -> (r: String)
    ensures
        r@ == url@ + seq![':'] + decimal(port as nat),
{
    proof {
        reveal_strlit(":");
    }
    let mut addr = url.to_owned();
    addr.append(":");
    let digits = decimal_string(port);
    addr.append(digits.as_str());
    addr
}

/// The address of the WebSocket listener, on the port after the HTTP server's.
pub fn websocket_address(url: &str, port: u16) -> (r: String)
    requires
        port < u16::MAX,
    ensures
        r@ == url@ + seq![':'] + decimal(port as nat + 1),
{
    server_address(url, port + 1)
}

/// What the host and port come to: the address given, and the port read from its text.
pub open spec fn port_outcome(port_text: Seq<char>, address: Seq<char>) -> Result<(Seq<char>, u16), Seq<char>> {
    match parse_u16_spec(port_text) {
        Some(p) => Ok((address, p)),
        None => Err(bad_port_message()),
    }
}

/// The outcome of the command line `args` (program name, port, and an optional
/// host), where `local` is what the lookup of the machine's own address gave.
/// Two arguments take the host from the lookup, three from the last argument.
pub open spec fn address_outcome(args: Seq<Seq<char>>, local: Result<Seq<char>, Seq<char>>) -> Result<
    (Seq<char>, u16),
    Seq<char>,
> {
    if args.len() == 2 {
        match local {
            Ok(a) => port_outcome(args[1], a),
            Err(e) => Err(e),
        }
    } else if args.len() == 3 {
        port_outcome(args[1], args[2])
    } else {
        Err(wrong_args_message())
    }
}

pub open spec fn args_view(args: Seq<String>) -> Seq<Seq<char>> {
    args.map_values(|s: String| s@)
}

pub open spec fn outcome_view(r: Result<(String, u16), String>) -> Result<(Seq<char>, u16), Seq<char>> {
    match r {
        Ok((a, p)) => Ok((a@, p)),
        Err(e) => Err(e@),
    }
}

pub open spec fn lookup_view(r: Result<String, String>) -> Result<Seq<char>, Seq<char>> {
    match r {
        Ok(a) => Ok(a@),
        Err(e) => Err(e@),
    }
}

/// Looks up the machine's own address in the local network, as text.
///
/// Calls `local_ip_address::local_ip` and writes the address or the error with
/// `to_string`. The answer depends on the machine's network interfaces, so
/// nothing is stated of it.
#[verifier::external_body]
fn local_ip_text() -> (r: Result<String, String>) {
    match local_ip_address::local_ip() {
        Ok(addr) => Ok(addr.to_string()),
        Err(err) => Err(err.to_string()),
    }
}

fn port_result(port_text: &str, address: String) -> (r: Result<(String, u16), String>)
    ensures
        outcome_view(r) == port_outcome(port_text@, address@),
{
    match parse_u16(port_text) {
        Some(port) => Ok((address, port)),
        None => Err("Port number is not a u16".to_owned()),
    }
}

/// Reads the host and port from the command line, given what the lookup of
/// the machine's own address gave (used only when no host is given).
pub fn resolve_address(args: &Vec<String>, local: Result<String, String>) -> (r: Result<(String, u16), String>)
    ensures
        outcome_view(r) == address_outcome(args_view(args@), lookup_view(local)),
{
    let n = args.len();
    let ghost av = args_view(args@);
    if n == 2 {
        assert(av[1] == args@[1]@);
        match local {
            Ok(address) => port_result(args[1].as_str(), address),
            Err(e) => Err(e),
        }
    } else if n == 3 {
        assert(av[1] == args@[1]@);
        assert(av[2] == args@[2]@);
        port_result(args[1].as_str(), args[2].clone())
    } else {
        Err("Wrong amount of args".to_owned())
    }
}

/// Reads the host and port from the command line: with two arguments the host
/// is the machine's own address in the local network, with three it is the last
/// argument; the port is the second argument.
pub fn set_address(args: Vec<String>) -> (r: Result<(String, u16), String>)
    ensures
        exists|local: Result<Seq<char>, Seq<char>>|
            outcome_view(r) == #[trigger] address_outcome(args_view(args@), local),
        args.len() != 2 ==> outcome_view(r) == address_outcome(args_view(args@), Err(Seq::empty())),
{
    if args.len() == 2 {
        let local = local_ip_text();
        let r = resolve_address(&args, local);
        assert(outcome_view(r) == address_outcome(args_view(args@), lookup_view(local)));
        r
    } else {
        let r = resolve_address(&args, Err(String::new()));
        r
    }
}

/// With two arguments, the host is exactly the text that the lookup of the
/// machine's own address gave, and its error is passed on as it came.
pub proof fn lemma_host_from_lookup(args: Seq<Seq<char>>, local: Result<Seq<char>, Seq<char>>)
    requires
        args.len() == 2,
    ensures
        match (local, parse_u16_spec(args[1])) {
            (Ok(a), Some(p)) => address_outcome(args, local) == Ok::<(Seq<char>, u16), Seq<char>>((a, p)),
            _ => true,
        },
        local matches Err(e) ==> address_outcome(args, local) == Err::<(Seq<char>, u16), Seq<char>>(e),
{
}

/// A port argument that does not read as a port is refused whatever the
/// lookup of the machine's address gives, and a command line of the wrong
/// length is refused before anything else.
pub proof fn lemma_bad_port_refused(args: Seq<Seq<char>>, local: Result<Seq<char>, Seq<char>>)
    ensures
        (args.len() == 2 || args.len() == 3) && parse_u16_spec(args[1]) is None ==> address_outcome(
            args,
            local,
        ) is Err,
        args.len() != 2 && args.len() != 3 ==> address_outcome(args, local) == Err::<(Seq<char>, u16), Seq<char>>(
            wrong_args_message(),
        ),
{
}

} // verus!
