//! Internet addresses as plain values: what a caller asks to bind to, and what
//! the platform reports back.

use vstd::prelude::*;

verus! {

/// The address family of a socket or of an address.
#[derive(Clone, Copy, Debug, PartialEq, Eq, Structural)]
pub enum Domain {
    Ipv4,
    Ipv6,
}

/// A host address: four octets for IPv4, eight 16-bit groups for IPv6, most
/// significant first.
#[derive(Clone, Copy, Debug, PartialEq, Eq, Structural)]
pub enum IpAddress {
    V4(u8, u8, u8, u8),
    V6(u16, u16, u16, u16, u16, u16, u16, u16),
}

impl IpAddress {
    /// The family this address belongs to.
    pub open spec fn family(self) -> Domain {
        match self {
            IpAddress::V4(..) => Domain::Ipv4,
            IpAddress::V6(..) => Domain::Ipv6,
        }
    }

    #[verifier::when_used_as_spec(family)]
    pub fn domain(self) -> (domain: Domain)
        ensures
            domain == self.family(),
    {
        match self {
            IpAddress::V4(..) => Domain::Ipv4,
            IpAddress::V6(..) => Domain::Ipv6,
        }
    }
}

/// The address a caller asks a socket to be bound to. Port `0` asks the
/// platform to choose a free port.
#[derive(Clone, Copy, Debug, PartialEq, Eq, Structural)]
pub struct AddressSpec {
    pub host: IpAddress,
    pub port: u16,
}

/// A concrete address as the platform reported it: the local address of a
/// bound socket, or the address of a connected peer.
#[derive(Clone, Copy, Debug, PartialEq, Eq, Structural)]
pub struct BoundAddress {
    pub host: IpAddress,
    pub port: u16,
}

impl AddressSpec {
    /// The family of the requested host.
    pub open spec fn family(self) -> Domain {
        self.host.family()
    }

    /// Whether the platform is asked to choose the port.
    pub open spec fn ephemeral(self) -> bool {
        self.port == 0
    }

    /// Whether `reported` is an address that a bind to `self` can have
    /// produced: the same host, a port that is not zero, and the requested
    /// port unless the choice was left to the platform.
    pub open spec fn resolves_to(self, reported: BoundAddress) -> bool {
        &&& reported.host == self.host
        &&& reported.port != 0
        &&& (self.port != 0 ==> reported.port == self.port)
    }

    pub fn new(host: IpAddress, port: u16) -> (address: AddressSpec)
        ensures
            address == (AddressSpec { host, port }),
    {
        AddressSpec { host, port }
    }

    #[verifier::when_used_as_spec(family)]
    pub fn domain(self) -> (domain: Domain)
        ensures
            domain == self.family(),
    {
        self.host.domain()
    }

    #[verifier::when_used_as_spec(ephemeral)]
    pub fn is_ephemeral(self) -> (ephemeral: bool)
        ensures
            ephemeral == self.ephemeral(),
    {
        self.port == 0
    }

    #[verifier::when_used_as_spec(resolves_to)]
    pub fn accepts(self, reported: BoundAddress) -> (consistent: bool)
        ensures
            consistent == self.resolves_to(reported),
    {
        reported.host == self.host && reported.port != 0 && (self.port == 0 || reported.port
            == self.port)
    }
}

impl BoundAddress {
    pub fn ip(self) -> (host: IpAddress)
        ensures
            host == self.host,
    {
        self.host
    }

    pub fn port(self) -> (port: u16)
        ensures
            port == self.port,
    {
        self.port
    }

    pub fn is_ipv4(self) -> (v4: bool)
        ensures
            v4 == (self.host.family() is Ipv4),
    {
        match self.host {
            IpAddress::V4(..) => true,
            IpAddress::V6(..) => false,
        }
    }

    pub fn is_ipv6(self) -> (v6: bool)
        ensures
            v6 == (self.host.family() is Ipv6),
    {
        match self.host {
            IpAddress::V4(..) => false,
            IpAddress::V6(..) => true,
        }
    }
}

} // verus!
