use vstd::prelude::*;

verus! {

/// An IP address: four octets, or eight 16-bit segments.
#[derive(Debug, Clone, Copy, PartialEq, Eq, Structural)]
pub enum IpAddress {
    V4(u8, u8, u8, u8),
    V6(u16, u16, u16, u16, u16, u16, u16, u16),
}

/// An endpoint that a transport channel can dial: an IP address and a port.
#[derive(Debug, Clone, Copy, PartialEq, Eq, Structural)]
pub struct SocketAddress {
    pub ip: IpAddress,
    pub port: u16,
}

/// The wildcard address of either family (`0.0.0.0` or `::`), which names no host to dial.
pub open spec fn is_unspecified(ip: IpAddress) -> bool {
    match ip {
        IpAddress::V4(a, b, c, d) => a == 0 && b == 0 && c == 0 && d == 0,
        IpAddress::V6(a, b, c, d, e, f, g, h) => a == 0 && b == 0 && c == 0 && d == 0 && e == 0
            && f == 0 && g == 0 && h == 0,
    }
}

/// The loopback address of the same family as `ip`.
pub open spec fn loopback_of(ip: IpAddress) -> IpAddress {
    match ip {
        IpAddress::V4(..) => IpAddress::V4(127, 0, 0, 1),
        IpAddress::V6(..) => IpAddress::V6(0, 0, 0, 0, 0, 0, 0, 1),
    }
}

/// The address that a registry which dials its services should be given: a wildcard
/// address becomes the loopback of its family, any other address stays.
pub open spec fn dialable(addr: SocketAddress) -> SocketAddress {
    if is_unspecified(addr.ip) {
        SocketAddress { ip: loopback_of(addr.ip), port: addr.port }
    } else {
        addr
    }
}

impl IpAddress {
    /// Whether this is the wildcard address of its family.
    pub fn is_unspecified(&self) -> (r: bool)
        ensures
            r == is_unspecified(*self),
    {
        match *self {
            IpAddress::V4(a, b, c, d) => a == 0 && b == 0 && c == 0 && d == 0,
            IpAddress::V6(a, b, c, d, e, f, g, h) => a == 0 && b == 0 && c == 0 && d == 0 && e
                == 0 && f == 0 && g == 0 && h == 0,
        }
    }

    /// Whether this is an IPv4 address.
    pub fn is_ipv4(&self) -> (r: bool)
        ensures
            r == (*self is V4),
    {
        match *self {
            IpAddress::V4(..) => true,
            IpAddress::V6(..) => false,
        }
    }
}

impl SocketAddress {
    /// The endpoint to hand to a registry that dials it (see `dialable`).
    pub fn dialable(&self) -> (r: SocketAddress)
        ensures
            r == dialable(*self),
    {
        if self.ip.is_unspecified() {
            let ip = if self.ip.is_ipv4() {
                IpAddress::V4(127, 0, 0, 1)
            } else {
                IpAddress::V6(0, 0, 0, 0, 0, 0, 0, 1)
            };
            SocketAddress { ip, port: self.port }
        } else {
            *self
        }
    }
}

} // verus!
