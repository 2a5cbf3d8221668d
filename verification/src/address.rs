//! The network address that a backend reports for itself.

use vstd::prelude::*;

verus! {

/// The octets of an IP address, most significant first.
#[derive(Clone, Copy, Debug, PartialEq, Eq)]
pub enum IpOctets {
    V4([u8; 4]),
    V6([u8; 16]),
}

impl View for IpOctets {
    type V = Seq<u8>;

    open spec fn view(&self) -> Seq<u8> {
        match self {
            IpOctets::V4(octets) => octets@,
            IpOctets::V6(octets) => octets@,
        }
    }
}

impl IpOctets {
    /// The longest network prefix an address of this family admits.
    pub open spec fn max_prefix(self) -> u8 {
        match self {
            IpOctets::V4(_) => 32,
            IpOctets::V6(_) => 128,
        }
    }

    pub fn prefix_limit(&self) -> (limit: u8)
        ensures
            limit == self.max_prefix(),
    {
        match self {
            IpOctets::V4(_) => 32,
            IpOctets::V6(_) => 128,
        }
    }
}

/// What a [`ServerAddress`] stands for: the address octets and the length of
/// the network prefix.
pub struct NetworkView {
    pub octets: Seq<u8>,
    pub prefix: u8,
}

/// The text of an IPv4 network in CIDR notation, as `ipnetwork` prints it:
/// the address, a slash and the prefix length. `octets` holds the four
/// octets of the address.
pub uninterp spec fn ipv4_cidr_text(octets: Seq<u8>, prefix: u8) -> Seq<char>;

/// The text of an IPv6 network in CIDR notation, as `ipnetwork` prints it:
/// the address, a slash and the prefix length. `octets` holds the sixteen
/// octets of the address.
pub uninterp spec fn ipv6_cidr_text(octets: Seq<u8>, prefix: u8) -> Seq<char>;

impl NetworkView {
    /// The network in CIDR notation; the number of octets tells the family.
    pub open spec fn text(self) -> Seq<char> {
        if self.octets.len() == 4 {
            ipv4_cidr_text(self.octets, self.prefix)
        } else {
            ipv6_cidr_text(self.octets, self.prefix)
        }
    }
}

/// An IP address together with a network prefix length that its family
/// admits: at most 32 for IPv4 and at most 128 for IPv6.
#[derive(Clone, Copy, Debug, PartialEq, Eq)]
pub struct ServerAddress {
    ip: IpOctets,
    prefix: u8,
}

impl View for ServerAddress {
    type V = NetworkView;

    closed spec fn view(&self) -> NetworkView {
        NetworkView { octets: self.ip@, prefix: self.prefix }
    }
}

impl ServerAddress {
    #[verifier::type_invariant]
    spec fn prefix_fits(self) -> bool {
        self.prefix <= self.ip.max_prefix()
    }

    /// The address with the given prefix length, or `None` where the prefix
    /// is longer than the family admits.
    pub fn new(ip: IpOctets, prefix: u8) -> (address: Option<ServerAddress>)
        ensures
            match address {
                Some(a) => prefix <= ip.max_prefix() && a@.octets == ip@ && a@.prefix == prefix,
                None => prefix > ip.max_prefix(),
            },
    {
        if prefix <= ip.prefix_limit() {
            Some(ServerAddress { ip, prefix })
        } else {
            None
        }
    }

    pub fn ip(&self) -> (ip: IpOctets)
        ensures
            ip@ == self@.octets,
    {
        self.ip
    }

    pub fn prefix(&self) -> (prefix: u8)
        ensures
            prefix == self@.prefix,
    {
        self.prefix
    }

    /// The address in CIDR notation, as it is recorded on spans.
    pub fn text(&self) -> (text: String)
        ensures
            text@ == self@.text(),
    {
        proof {
            use_type_invariant(self);
        }
        match self.ip {
            IpOctets::V4(octets) => format_ipv4_network(octets, self.prefix),
            IpOctets::V6(octets) => format_ipv6_network(octets, self.prefix),
        }
    }
}

/// Builds an `ipnetwork::Ipv4Network` with `Ipv4Network::new` and prints it
/// through its `Display` impl. The contract claims that the text depends on
/// the octets and the prefix alone, and names it [`ipv4_cidr_text`]; nothing
/// is claimed of what the text holds. `new` fails on a prefix above 32.
#[verifier::external_body]
fn format_ipv4_network(octets: [u8; 4], prefix: u8) -> (text: String)
    requires
        prefix <= 32,
    ensures
        text@ == ipv4_cidr_text(octets@, prefix),
{
    ipnetwork::Ipv4Network::new(octets.into(), prefix).unwrap().to_string()
}

/// Builds an `ipnetwork::Ipv6Network` with `Ipv6Network::new` and prints it
/// through its `Display` impl. The contract claims that the text depends on
/// the octets and the prefix alone, and names it [`ipv6_cidr_text`]; nothing
/// is claimed of what the text holds. `new` fails on a prefix above 128.
#[verifier::external_body]
fn format_ipv6_network(octets: [u8; 16], prefix: u8) -> (text: String)
    requires
        prefix <= 128,
    ensures
        text@ == ipv6_cidr_text(octets@, prefix),
{
    ipnetwork::Ipv6Network::new(octets.into(), prefix).unwrap().to_string()
}

} // verus!
