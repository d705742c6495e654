//! The HTTP proxy endpoint: where a request goes, and what it is answered when it
//! does not get there.
use bytes::Bytes;
use vstd::prelude::*;
use vstd::utf8::encode_utf8;

use crate::address::{IpAddr, SocketAddrV4, SocketAddrV6};
use crate::buf::bytes_seq;
use crate::error::Error;
use crate::text::{contains, is_substring};
use crate::tunnel::Address;

verus! {

/// The request cannot be understood.
pub const BAD_REQUEST: u16 = 400;

/// The destination cannot be reached.
pub const SERVICE_UNAVAILABLE: u16 = 503;

/// The port of a request that names none.
pub open spec fn default_port(https: bool) -> u16 {
    if https {
        443
    } else {
        80
    }
}

/// The destination of a request, whose host is the address `ip` if it is one at
/// all. A request without a host is answered with a status.
pub fn extract_target_address(
    host: Option<&str>,
    ip: Option<IpAddr>,
    port: Option<u16>,
    https: bool,
) -> (r: Result<Address, u16>)
    ensures
        ({
            let p = match port {
                Some(p) => p,
                None => default_port(https),
            };
            match (host, ip) {
                (None, _) => r == Err::<Address, u16>(BAD_REQUEST),
                (Some(_), Some(IpAddr::V4(ip))) => r == Ok::<Address, u16>(
                    Address::SocketV4(SocketAddrV4 { ip, port: p }),
                ),
                (Some(_), Some(IpAddr::V6(ip))) => r == Ok::<Address, u16>(
                    Address::SocketV6(SocketAddrV6 { ip, port: p, flowinfo: 0, scope_id: 0 }),
                ),
                (Some(h), None) => r matches Ok(Address::Domain(d, q)) && bytes_seq(d)
                    == encode_utf8(h@) && q == p,
            }
        }),
{
    let host = match host {
        Some(host) => host,
        None => return Err(BAD_REQUEST),
    };
    let port: u16 = match port {
        Some(port) => port,
        None => if https {
            443
        } else {
            80
        },
    };
    Ok(
        match ip {
            Some(IpAddr::V4(ip)) => Address::SocketV4(SocketAddrV4 { ip, port }),
            Some(IpAddr::V6(ip)) => Address::SocketV6(
                SocketAddrV6 { ip, port, flowinfo: 0, scope_id: 0 },
            ),
            None => Address::Domain(Bytes::copy_from_slice(host.as_bytes()), port),
        },
    )
}

/// How a request goes on once the tunnel has tried to reach its destination.
#[derive(Clone, Copy, Debug, PartialEq, Eq, Structural)]
pub enum ProxyStep {
    /// It is answered with this status.
    Respond(u16),
    /// The connection itself becomes a tunnel.
    Tunnel,
    /// The request is forwarded.
    Forward,
}

/// How a request goes on once the tunnel has tried to reach its destination.
pub fn proxy_handler(opened: &Result<(), Error>, is_connect: bool) -> (r: ProxyStep)
    ensures
        r == match opened {
            Err(_) => ProxyStep::Respond(SERVICE_UNAVAILABLE),
            Ok(()) => if is_connect {
                ProxyStep::Tunnel
            } else {
                ProxyStep::Forward
            },
        },
{
    match opened {
        Err(_) => ProxyStep::Respond(SERVICE_UNAVAILABLE),
        Ok(()) => if is_connect {
            ProxyStep::Tunnel
        } else {
            ProxyStep::Forward
        },
    }
}

/// Whether a failure to serve a connection only says that it was closed.
pub fn is_connection_closed_error(message: &str) -> (r: bool)
    ensures
        r == is_substring(message@, "connection closed"@),
{
    contains(message, "connection closed")
}

/// A request goes to the host that it names, at the port that it names or else at 443 for
/// a secure one and 80 for another: to the address where the host is one, and to the name
/// where it is not. Only a request without a host is a bad one.
pub proof fn law_request_goes_where_it_says(
    host: Option<&str>,
    ip: Option<IpAddr>,
    port: Option<u16>,
    https: bool,
    r: Result<Address, u16>,
)
    requires
        call_ensures(extract_target_address, (host, ip, port, https), r),
    ensures
        r is Ok <==> host is Some,
        r matches Err(status) ==> status == 400,
        r matches Ok(a) ==> {
            let p = match a {
                Address::SocketV4(x) => x.port,
                Address::SocketV6(x) => x.port,
                Address::Domain(_, q) => q,
            };
            &&& port matches Some(q) ==> p == q
            &&& port is None && https ==> p == 443
            &&& port is None && !https ==> p == 80
            &&& a is Domain <==> ip is None
            &&& a matches Address::SocketV4(x) ==> ip == Some(IpAddr::V4(x.ip))
            &&& a matches Address::SocketV6(x) ==> ip == Some(IpAddr::V6(x.ip)) && x.flowinfo == 0
                && x.scope_id == 0
            &&& a matches Address::Domain(d, _) ==> (host matches Some(h) && bytes_seq(d)
                == encode_utf8(h@))
        },
{
}

/// A request whose destination cannot be reached is answered with 503; one that was
/// reached becomes a tunnel where it asked for one, and is forwarded where it did not.
pub proof fn law_request_goes_on_when_reached(
    opened: &Result<(), Error>,
    is_connect: bool,
    r: ProxyStep,
)
    requires
        call_ensures(proxy_handler, (opened, is_connect), r),
    ensures
        opened is Err <==> r == ProxyStep::Respond(503),
        r is Respond ==> opened is Err,
        opened is Ok && is_connect <==> r == ProxyStep::Tunnel,
        opened is Ok && !is_connect <==> r == ProxyStep::Forward,
{
}

/// A failure that only says that the connection was closed says so somewhere in its words.
pub proof fn law_closed_connections_are_told_by_their_words(message: &str, r: bool, before: Seq<
    char,
>, after: Seq<char>)
    requires
        call_ensures(is_connection_closed_error, (message,), r),
    ensures
        message@ == before + "connection closed"@ + after ==> r,
        r ==> exists|i: int|
            0 <= i <= message@.len() - "connection closed"@.len() && #[trigger] message@.subrange(
                i,
                i + "connection closed"@.len(),
            ) == "connection closed"@,
{
    let needle = "connection closed"@;
    if message@ == before + needle + after {
        let i = before.len() as int;
        assert(message@.subrange(i, i + needle.len()) =~= needle);
    }
}

} // verus!
