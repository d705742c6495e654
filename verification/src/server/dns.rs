//! Names to addresses: what is asked, and what is made of the answer.
use vstd::prelude::*;
use vstd::utf8::{decode_utf8, valid_utf8};

use crate::address::{IpAddr, SocketAddr};
use crate::error::{Error, ErrorKind};
use crate::netstack::udp::socket_addr;
use crate::text::from_utf8;

verus! {

/// The name to ask for.
pub fn domain_name(domain: &[u8]) -> (r: Result<String, Error>)
    ensures
        match r {
            Ok(name) => valid_utf8(domain@) && name@ == decode_utf8(domain@),
            Err(e) => !valid_utf8(domain@) && e.reads(
                ErrorKind::InvalidInput,
                "domain name contains invalid utf-8 characters"@,
            ),
        },
{
    match from_utf8(domain) {
        Some(name) => Ok(name.to_owned()),
        None => Err(
            Error::new(
                ErrorKind::InvalidInput,
                "domain name contains invalid utf-8 characters",
            ),
        ),
    }
}

/// What the answer of the resolver comes to: the first address of those that it
/// gave, in the order of its preference, with the port that was asked for.
pub fn resolve_domain(name: &str, port: u16, answer: Result<Vec<IpAddr>, String>) -> (r: Result<
    SocketAddr,
    Error,
>)
    ensures
        match answer {
            Err(why) => r matches Err(e) && e.reads(
                ErrorKind::NotFound,
                "dns resolution failed for "@ + name@ + ": "@ + why@,
            ),
            Ok(ips) => if ips@.len() == 0 {
                r matches Err(e) && e.reads(
                    ErrorKind::NotFound,
                    "no ip addresses found for "@ + name@,
                )
            } else {
                r matches Ok(a) && match ips@[0] {
                    IpAddr::V4(ip) => a matches SocketAddr::V4(x) && x.ip == ip && x.port == port,
                    IpAddr::V6(ip) => a matches SocketAddr::V6(x) && x.ip == ip && x.port == port
                        && x.flowinfo == 0 && x.scope_id == 0,
                }
            },
        },
{
    match answer {
        Err(why) => {
            let mut message = "dns resolution failed for ".to_owned();
            message.append(name);
            message.append(": ");
            message.append(why.as_str());
            Err(Error::with_message(ErrorKind::NotFound, message))
        },
        Ok(ips) => {
            if ips.len() == 0 {
                let mut message = "no ip addresses found for ".to_owned();
                message.append(name);
                return Err(Error::with_message(ErrorKind::NotFound, message));
            }
            Ok(socket_addr(ips[0], port))
        },
    }
}

/// A name that resolves is its first address, with the port that was asked for; one that
/// does not, or has no address, is not found.
pub proof fn law_first_address_is_taken(
    name: &str,
    port: u16,
    answer: Result<Vec<IpAddr>, String>,
    r: Result<SocketAddr, Error>,
)
    requires
        call_ensures(resolve_domain, (name, port, answer), r),
    ensures
        r is Ok <==> (answer matches Ok(ips) && ips@.len() > 0),
        r matches Ok(SocketAddr::V4(a)) ==> (answer matches Ok(ips) && ips@[0] == IpAddr::V4(a.ip)
            && a.port == port),
        r matches Ok(SocketAddr::V6(a)) ==> (answer matches Ok(ips) && ips@[0] == IpAddr::V6(a.ip)
            && a.port == port && a.flowinfo == 0 && a.scope_id == 0),
        r matches Err(e) ==> e.kind == ErrorKind::NotFound,
        answer matches Err(why) ==> (r matches Err(e) && e.message@ == "dns resolution failed for "@
            + name@ + ": "@ + why@),
        answer matches Ok(ips) ==> (ips@.len() == 0 ==> (r matches Err(e) && e.message@
            == "no ip addresses found for "@ + name@)),
{
}

/// A name that is valid text is asked for as it stands, and no other is.
pub proof fn law_valid_names_are_asked_for(domain: &[u8], r: Result<String, Error>)
    requires
        call_ensures(domain_name, (domain,), r),
    ensures
        r is Ok <==> valid_utf8(domain@),
        r matches Ok(name) ==> name@ == decode_utf8(domain@),
        r matches Err(e) ==> e.kind == ErrorKind::InvalidInput && e.message@
            == "domain name contains invalid utf-8 characters"@,
{
}

} // verus!
