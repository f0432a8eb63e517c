//! IP and socket addresses as plain values.

use vstd::prelude::*;

verus! {

/// An IP address, by its bits in network order.
#[derive(Clone, Copy, PartialEq, Eq, Structural, Hash, Debug)]
pub enum IpAddr {
    V4(u32),
    V6(u128),
}

/// A socket address.
#[allow(inconsistent_fields)]
#[derive(Clone, Copy, PartialEq, Eq, Structural, Hash, Debug)]
pub enum SocketAddr {
    V4 { ip: u32, port: u16 },
    V6 { ip: u128, port: u16, flowinfo: u32, scope_id: u32 },
}

/// The bits of 127.0.0.1.
pub const LOCALHOST: u32 = 0x7f00_0001;

impl SocketAddr {
    /// The port of an address.
    pub open spec fn spec_port(self) -> u16 {
        match self {
            SocketAddr::V4 { port, .. } => port,
            SocketAddr::V6 { port, .. } => port,
        }
    }

    /// The port of an address.
    pub fn port(&self) -> (r: u16)
        ensures
            r == self.spec_port(),
    {
        match *self {
            SocketAddr::V4 { port, .. } => port,
            SocketAddr::V6 { port, .. } => port,
        }
    }
}

/// What std's parser makes of a text as an IP address: the address, or the
/// message of the error.
pub uninterp spec fn ip_addr_from_text(s: Seq<char>) -> Result<IpAddr, Seq<char>>;

/// What std's parser makes of a text as a socket address.
pub uninterp spec fn socket_addr_from_text(s: Seq<char>) -> Option<SocketAddr>;

/// Calls `str::parse::<IpAddr>` of core. Its result, taken as bits, and its
/// error, taken as the text that `Display` gives, depend on the text alone.
#[verifier::external_body]
pub(crate) fn parse_ip(s: &str) -> (r: Result<IpAddr, String>)
    ensures
        match r {
            Ok(addr) => ip_addr_from_text(s@) == Ok::<IpAddr, Seq<char>>(addr),
            Err(message) => ip_addr_from_text(s@) == Err::<IpAddr, Seq<char>>(message@),
        },
{
    match s.parse::<core::net::IpAddr>() {
        Ok(core::net::IpAddr::V4(addr)) => Ok(IpAddr::V4(addr.to_bits())),
        Ok(core::net::IpAddr::V6(addr)) => Ok(IpAddr::V6(addr.to_bits())),
        Err(e) => Err(e.to_string()),
    }
}

/// Calls `str::parse::<SocketAddr>` of core. Its result, taken field by field,
/// depends on the text alone.
#[verifier::external_body]
pub(crate) fn parse_socket(s: &str) -> (r: Option<SocketAddr>)
    ensures
        r == socket_addr_from_text(s@),
{
    match s.parse::<core::net::SocketAddr>() {
        Ok(core::net::SocketAddr::V4(a)) => Some(
            SocketAddr::V4 { ip: a.ip().to_bits(), port: a.port() },
        ),
        Ok(core::net::SocketAddr::V6(a)) => Some(
            SocketAddr::V6 {
                ip: a.ip().to_bits(),
                port: a.port(),
                flowinfo: a.flowinfo(),
                scope_id: a.scope_id(),
            },
        ),
        Err(_) => None,
    }
}

/// How std writes a socket address.
pub uninterp spec fn socket_addr_text(addr: SocketAddr) -> Seq<char>;

/// Calls `Display` of core's `SocketAddr`. The text depends on the address alone.
#[verifier::external_body]
pub(crate) fn format_socket(addr: SocketAddr) -> (r: String)
    ensures
        r@ == socket_addr_text(addr),
{
    match addr {
        SocketAddr::V4 { ip, port } => core::net::SocketAddrV4::new(
            core::net::Ipv4Addr::from_bits(ip),
            port,
        ).to_string(),
        SocketAddr::V6 { ip, port, flowinfo, scope_id } => core::net::SocketAddrV6::new(
            core::net::Ipv6Addr::from_bits(ip),
            port,
            flowinfo,
            scope_id,
        ).to_string(),
    }
}

} // verus!
