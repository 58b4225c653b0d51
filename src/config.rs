//! Where the daemon listens: the peer port and the front-end socket path,
//! each taken from an optional override with a fixed default.

use vstd::prelude::*;

verus! {

/// The peer port when no valid override is given.
pub const DEFAULT_TCP_PORT: u16 = 12345;

/// The front-end socket path when no override is given.
pub const DEFAULT_SOCKET_PATH: &'static str = "/tmp/localchat_daemon.sock";

/// The port number that `s` spells, as `str::parse::<u16>` reads it.
pub uninterp spec fn parsed_port(s: Seq<char>) -> Option<u16>;

/// Relies on `str::parse::<u16>`: the number the text spells, or nothing when
/// it is not a decimal number that fits; empty text is refused.
#[verifier::external_body]
fn parse_port(s: &str) -> (r: Option<u16>)
    ensures
        r == parsed_port(s@),
        s@.len() == 0 ==> r is None,
{
    s.parse::<u16>().ok()
}

/// The port chosen by an override that parsed to `parsed`.
pub open spec fn port_choice(parsed: Option<u16>) -> u16 {
    match parsed {
        Some(p) => p,
        None => DEFAULT_TCP_PORT,
    }
}

/// The peer port for an override that parsed to `parsed`: the parsed
/// number, or the default when the override is absent or invalid.
pub fn port_or_default(parsed: Option<u16>) -> (r: u16)
    ensures
        r == port_choice(parsed),
{
    match parsed {
        Some(p) => p,
        None => DEFAULT_TCP_PORT,
    }
}

/// The peer port for the override `value`, if one is set.
pub fn tcp_port_from(value: Option<&str>) -> (r: u16)
    ensures
        r == match value {
            Some(s) => port_choice(parsed_port(s@)),
            None => DEFAULT_TCP_PORT,
        },
{
    match value {
        Some(s) => port_or_default(parse_port(s)),
        None => DEFAULT_TCP_PORT,
    }
}

/// The front-end socket path for the override `value`, if one is set.
pub fn socket_path_from(value: Option<String>) -> (r: String)
    ensures
        r@ == match value {
            Some(s) => s@,
            None => DEFAULT_SOCKET_PATH@,
        },
{
    match value {
        Some(s) => s,
        None => String::from_str(DEFAULT_SOCKET_PATH),
    }
}

} // verus!
