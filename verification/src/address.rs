//! The library's model of IP addresses and socket addresses, and the
//! filter policy on single addresses.

use vstd::prelude::*;

verus! {

/// The fixed port that every resolved address is paired with.
pub const HTTPS_PORT: u16 = 443;

/// An IP address: IPv4 as four octets, IPv6 as eight 16-bit segments.
#[derive(Clone, Copy, PartialEq, Eq, Structural, Debug)]
pub enum IpAddress {
    V4 { a: u8, b: u8, c: u8, d: u8 },
    V6 { s0: u16, s1: u16, s2: u16, s3: u16, s4: u16, s5: u16, s6: u16, s7: u16 },
}

/// An IP address paired with a port.
#[derive(Clone, Copy, PartialEq, Eq, Structural, Debug)]
pub struct SocketAddress {
    pub ip: IpAddress,
    pub port: u16,
}

/// An IPv4 address, given by its first two octets, that lies in a private
/// range: 10.0.0.0/8, 172.16.0.0/12, 192.168.0.0/16, the loopback range
/// 127.0.0.0/8, or the link-local range 169.254.0.0/16.
pub open spec fn spec_is_private_v4(a: u8, b: u8) -> bool {
    ||| a == 10
    ||| (a == 172 && 16 <= b && b <= 31)
    ||| (a == 192 && b == 168)
    ||| a == 127
    ||| (a == 169 && b == 254)
}

/// The filter policy on one address: every IPv6 address is kept, and an
/// IPv4 address is kept exactly when it lies in no private range.
pub open spec fn spec_keeps(ip: IpAddress) -> bool {
    match ip {
        IpAddress::V4 { a, b, .. } => !spec_is_private_v4(a, b),
        IpAddress::V6 { .. } => true,
    }
}

/// The socket address that a kept IP address is turned into.
pub open spec fn spec_socket_of(ip: IpAddress) -> SocketAddress {
    SocketAddress { ip, port: HTTPS_PORT }
}

impl IpAddress {
    /// Build an IPv4 address from its four octets.
    pub fn v4(a: u8, b: u8, c: u8, d: u8) -> (r: IpAddress)
        ensures
            r == (IpAddress::V4 { a, b, c, d }),
    {
        IpAddress::V4 { a, b, c, d }
    }

    /// Build an IPv6 address from its eight 16-bit segments.
    pub fn v6(s0: u16, s1: u16, s2: u16, s3: u16, s4: u16, s5: u16, s6: u16, s7: u16) -> (r: IpAddress)
        ensures
            r == (IpAddress::V6 { s0, s1, s2, s3, s4, s5, s6, s7 }),
    {
        IpAddress::V6 { s0, s1, s2, s3, s4, s5, s6, s7 }
    }

    /// Whether the filter policy keeps this address.
    pub fn keep(&self) -> (r: bool)
        ensures
            r == spec_keeps(*self),
    {
        match self {
            IpAddress::V4 { a, b, .. } => {
                let private: bool = *a == 10
                    || (*a == 172 && 16 <= *b && *b <= 31)
                    || (*a == 192 && *b == 168)
                    || *a == 127
                    || (*a == 169 && *b == 254);
                !private
            }
            IpAddress::V6 { .. } => true,
        }
    }

    /// Pair this address with the fixed HTTPS port.
    pub fn with_https_port(self) -> (r: SocketAddress)
        ensures
            r == spec_socket_of(self),
    {
        SocketAddress { ip: self, port: HTTPS_PORT }
    }
}

} // verus!
