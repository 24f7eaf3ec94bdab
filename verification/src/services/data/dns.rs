//! Name resolution through the module's DNS (`+UDNSRN`): what is asked,
//! and what the answer gives.

use crate::command::dns::{ResolveNameIp, ResolveNameIpResponse, DOMAIN_NAME_TO_IP, IP_TO_DOMAIN_NAME};
use crate::socket::endpoint::{ip_text, ip_written, is_ip_text, parse_ip, push_ip_text, IpAddr};
use crate::socket::Error;
use crate::text::{chars_of, string_of};
use vstd::prelude::*;

verus! {

/// The kind of address record that a host name is resolved to.
#[derive(Debug, Clone, Copy, PartialEq, Eq, Structural)]
pub enum AddrType {
    /// An IPv4 address.
    IPv4,
    /// An IPv6 address.
    IPv6,
    /// Either kind.
    Either,
}

/// Whether a host name may be resolved to `addr_type`: the module resolves
/// to IPv4 addresses, so asking for IPv6 alone is refused (`Illegal`).
pub fn check_addr_type(addr_type: AddrType) -> (r: Result<(), Error>)
    ensures
        addr_type == AddrType::IPv6 ==> r == Err::<(), Error>(Error::Illegal),
        addr_type != AddrType::IPv6 ==> r is Ok,
{
    match addr_type {
        AddrType::IPv6 => Err(Error::Illegal),
        _ => Ok(()),
    }
}

/// The text of the address `ip`, which a reverse resolution asks about.
pub fn address_text(ip: &IpAddr) -> (r: String)
    ensures
        r@ == ip_text(*ip),
{
    let mut t: Vec<char> = Vec::new();
    push_ip_text(&mut t, ip);
    string_of(t.as_slice())
}

/// The query that resolves the host name `hostname` to an address.
pub fn name_query<'a>(hostname: &'a str) -> (r: ResolveNameIp<'a>)
    ensures
        r.resolution_type == DOMAIN_NAME_TO_IP,
        r.ip_domain_string == hostname,
{
    ResolveNameIp { resolution_type: DOMAIN_NAME_TO_IP, ip_domain_string: hostname }
}

/// The query that resolves the address text `address` (see [address_text])
/// to a host name.
pub fn address_query<'a>(address: &'a str) -> (r: ResolveNameIp<'a>)
    ensures
        r.resolution_type == IP_TO_DOMAIN_NAME,
        r.ip_domain_string == address,
{
    ResolveNameIp { resolution_type: IP_TO_DOMAIN_NAME, ip_domain_string: address }
}

/// The address that the answer to a name resolution gives: the IPv4 or
/// IPv6 address that its text writes (see [ip_written]), or `Illegal`
/// where it writes none.
pub fn host_address(answer: &ResolveNameIpResponse) -> (r: Result<IpAddr, Error>)
    ensures
        r is Ok == is_ip_text(answer.ip_domain_string@),
        r matches Ok(ip) ==> ip_written(answer.ip_domain_string@, ip),
        r matches Err(e) ==> e == Error::Illegal,
{
    let t = chars_of(answer.ip_domain_string.as_str());
    match parse_ip(t.as_slice()) {
        Some(ip) => Ok(ip),
        None => Err(Error::Illegal),
    }
}

} // verus!
