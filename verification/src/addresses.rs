//! The addresses that the driver redirects between: those of the tunnel and
//! those of the interface that holds the default route.
use crate::wire::{append_be, be_bytes, le_bytes, lemma_le_bytes_len, lemma_le_bytes_zero};
use vstd::prelude::*;

verus! {

/// An IPv4 address. `bits` holds the four octets, the first in the most
/// significant byte.
#[derive(Clone, Copy, Debug, PartialEq, Eq, Hash, Structural)]
pub struct Ipv4Address {
    pub bits: u32,
}

/// An IPv6 address. `bits` holds the sixteen octets, the first in the most
/// significant byte.
#[derive(Clone, Copy, Debug, PartialEq, Eq, Hash, Structural)]
pub struct Ipv6Address {
    pub bits: u128,
}

/// An address of either family.
#[derive(Clone, Copy, Debug, PartialEq, Eq, Hash, Structural)]
pub enum IpAddress {
    V4(Ipv4Address),
    V6(Ipv6Address),
}

/// The bits of `192.0.2.123`: stands in for the tunnel's IPv4 address when
/// the tunnel has none. The driver needs some address to redirect from, and
/// this one is never routed.
pub const RESERVED_IP_V4: u32 = 0xC000_027B;

/// The bits of `193.138.218.78`: the destination for which the route dump
/// asks the system's best route.
pub const PUBLIC_INTERNET_ADDRESS_V4: u32 = 0xC18A_DA4E;

impl Ipv4Address {
    /// The address `a.b.c.d`.
    pub fn new(a: u8, b: u8, c: u8, d: u8) -> (address: Ipv4Address)
        ensures
            address.bits == a as int * 0x100_0000 + b as int * 0x1_0000 + c as int * 0x100 + d,
    {
        Ipv4Address {
            bits: (a as u32) * 0x100_0000 + (b as u32) * 0x1_0000 + (c as u32) * 0x100 + (d as u32),
        }
    }

    /// The octets in the order in which the address is written.
    pub open spec fn octets(self) -> Seq<u8> {
        be_bytes(self.bits as nat, 4)
    }

    /// The address that is registered for a tunnel without an IPv4 address.
    pub open spec fn spec_reserved() -> Ipv4Address {
        Ipv4Address { bits: RESERVED_IP_V4 }
    }

    /// The address that is registered for a tunnel without an IPv4 address:
    /// `192.0.2.123`.
    #[verifier::when_used_as_spec(spec_reserved)]
    pub fn reserved() -> (address: Ipv4Address)
        ensures
            address == Ipv4Address::spec_reserved(),
            address.bits == 0xC000_027B,
    {
        Ipv4Address { bits: RESERVED_IP_V4 }
    }
}

impl Ipv6Address {
    /// The octets in the order in which the address is written.
    pub open spec fn octets(self) -> Seq<u8> {
        be_bytes(self.bits as nat, 16)
    }
}

/// The addresses registered with the driver.
#[derive(Clone, Copy, Debug, PartialEq, Eq, Structural)]
pub struct InterfaceAddresses {
    pub tunnel_ipv4: Option<Ipv4Address>,
    pub tunnel_ipv6: Option<Ipv6Address>,
    pub internet_ipv4: Option<Ipv4Address>,
    pub internet_ipv6: Option<Ipv6Address>,
}

impl Default for InterfaceAddresses {
    fn default() -> (addresses: InterfaceAddresses)
        ensures
            addresses == InterfaceAddresses::none(),
    {
        InterfaceAddresses {
            tunnel_ipv4: None,
            tunnel_ipv6: None,
            internet_ipv4: None,
            internet_ipv6: None,
        }
    }
}

/// The bytes that stand for an optional IPv4 address: its octets, or zeros.
pub open spec fn ipv4_bytes(address: Option<Ipv4Address>) -> Seq<u8> {
    match address {
        Some(ip) => ip.octets(),
        None => be_bytes(0, 4),
    }
}

/// The bytes that stand for an optional IPv6 address: its octets, or zeros.
pub open spec fn ipv6_bytes(address: Option<Ipv6Address>) -> Seq<u8> {
    match address {
        Some(ip) => ip.octets(),
        None => be_bytes(0, 16),
    }
}

impl InterfaceAddresses {
    /// No address at all.
    pub open spec fn none() -> InterfaceAddresses {
        InterfaceAddresses {
            tunnel_ipv4: None,
            tunnel_ipv6: None,
            internet_ipv4: None,
            internet_ipv6: None,
        }
    }

    /// Whether the addresses may be sent to the driver: without an internet
    /// address there is nothing to redirect to, so no tunnel address is
    /// named either.
    pub open spec fn spec_is_consistent(self) -> bool {
        self.internet_ipv4.is_none() && self.internet_ipv6.is_none() ==> self.tunnel_ipv4.is_none()
            && self.tunnel_ipv6.is_none()
    }

    /// The addresses as they are sent: unchanged where an internet address is
    /// present, without tunnel addresses where none is.
    pub open spec fn spec_normalized(self) -> InterfaceAddresses {
        if self.internet_ipv4.is_none() && self.internet_ipv6.is_none() {
            InterfaceAddresses { tunnel_ipv4: None, tunnel_ipv6: None, ..self }
        } else {
            self
        }
    }

    /// The input of the operation that registers addresses: both IPv4
    /// addresses, the tunnel's first, then both IPv6 addresses, the tunnel's
    /// first. An absent address is all zeros.
    pub open spec fn wire_bytes(self) -> Seq<u8> {
        ipv4_bytes(self.tunnel_ipv4) + ipv4_bytes(self.internet_ipv4) + ipv6_bytes(
            self.tunnel_ipv6,
        ) + ipv6_bytes(self.internet_ipv6)
    }

    /// Whether the addresses may be sent to the driver.
    #[verifier::when_used_as_spec(spec_is_consistent)]
    pub fn is_consistent(self) -> (consistent: bool)
        ensures
            consistent == self.spec_is_consistent(),
    {
        !(self.internet_ipv4.is_none() && self.internet_ipv6.is_none()) || (
        self.tunnel_ipv4.is_none() && self.tunnel_ipv6.is_none())
    }

    /// The addresses as they are sent: without tunnel addresses where no
    /// internet address is named.
    #[verifier::when_used_as_spec(spec_normalized)]
    pub fn normalized(self) -> (addresses: InterfaceAddresses)
        ensures
            addresses == self.spec_normalized(),
            addresses.spec_is_consistent(),
            self.spec_is_consistent() ==> addresses == self,
    {
        if self.internet_ipv4.is_none() && self.internet_ipv6.is_none() {
            InterfaceAddresses {
                tunnel_ipv4: None,
                tunnel_ipv6: None,
                internet_ipv4: self.internet_ipv4,
                internet_ipv6: self.internet_ipv6,
            }
        } else {
            self
        }
    }

    /// Lays the addresses out for the driver.
    pub fn to_bytes(self) -> (buffer: Vec<u8>)
        ensures
            buffer@ == self.wire_bytes(),
            buffer@.len() == 40,
    {
        let mut buffer: Vec<u8> = Vec::new();
        append_be(
            &mut buffer,
            match self.tunnel_ipv4 {
                Some(ip) => ip.bits as u128,
                None => 0,
            },
            4,
        );
        append_be(
            &mut buffer,
            match self.internet_ipv4 {
                Some(ip) => ip.bits as u128,
                None => 0,
            },
            4,
        );
        append_be(
            &mut buffer,
            match self.tunnel_ipv6 {
                Some(ip) => ip.bits,
                None => 0,
            },
            16,
        );
        append_be(
            &mut buffer,
            match self.internet_ipv6 {
                Some(ip) => ip.bits,
                None => 0,
            },
            16,
        );
        proof {
            assert(buffer@ =~= self.wire_bytes());
        }
        buffer
    }
}

/// Each address has its place in the layout: the tunnel's IPv4 address in
/// the first four bytes, the internet's in the next four, then the tunnel's
/// IPv6 address in sixteen bytes and the internet's in the last sixteen.
pub proof fn lemma_wire_bytes_layout(addresses: InterfaceAddresses)
    ensures
        addresses.wire_bytes().len() == 40,
        addresses.wire_bytes().subrange(0, 4) == ipv4_bytes(addresses.tunnel_ipv4),
        addresses.wire_bytes().subrange(4, 8) == ipv4_bytes(addresses.internet_ipv4),
        addresses.wire_bytes().subrange(8, 24) == ipv6_bytes(addresses.tunnel_ipv6),
        addresses.wire_bytes().subrange(24, 40) == ipv6_bytes(addresses.internet_ipv6),
{
    let bytes = addresses.wire_bytes();
    assert(bytes.subrange(0, 4) =~= ipv4_bytes(addresses.tunnel_ipv4));
    assert(bytes.subrange(4, 8) =~= ipv4_bytes(addresses.internet_ipv4));
    assert(bytes.subrange(8, 24) =~= ipv6_bytes(addresses.tunnel_ipv6));
    assert(bytes.subrange(24, 40) =~= ipv6_bytes(addresses.internet_ipv6));
}

/// The octets of the address `a.b.c.d` are `a`, `b`, `c` and `d`.
pub proof fn lemma_ipv4_octets(a: u8, b: u8, c: u8, d: u8)
    ensures
        (Ipv4Address {
            bits: (a as int * 0x100_0000 + b as int * 0x1_0000 + c as int * 0x100 + d) as u32,
        }).octets() == seq![a, b, c, d],
{
    let bits = (a as int * 0x100_0000 + b as int * 0x1_0000 + c as int * 0x100 + d) as nat;
    reveal_with_fuel(le_bytes, 5);
    lemma_le_bytes_len(bits, 4);
    let digits = le_bytes(bits, 4);
    assert(digits[0] == d);
    assert(digits[1] == c);
    assert(digits[2] == b);
    assert(digits[3] == a);
    assert(be_bytes(bits, 4) =~= seq![a, b, c, d]);
}

/// An absent address is all zeros.
pub proof fn lemma_absent_address_is_zero()
    ensures
        ipv4_bytes(None) == Seq::new(4, |i: int| 0u8),
        ipv6_bytes(None) == Seq::new(16, |i: int| 0u8),
{
    lemma_le_bytes_zero(4);
    lemma_le_bytes_zero(16);
    assert(be_bytes(0, 4) =~= Seq::new(4, |i: int| 0u8));
    assert(be_bytes(0, 16) =~= Seq::new(16, |i: int| 0u8));
}

/// The first IPv4 address among the first `n` of `ips`.
pub open spec fn first_ipv4(ips: Seq<IpAddress>, n: nat) -> Option<Ipv4Address>
    decreases n,
{
    if n == 0 {
        None
    } else {
        match first_ipv4(ips, (n - 1) as nat) {
            Some(found) => Some(found),
            None => match ips[n - 1] {
                IpAddress::V4(address) => Some(address),
                IpAddress::V6(_) => None,
            },
        }
    }
}

/// The first IPv6 address among the first `n` of `ips`.
pub open spec fn first_ipv6(ips: Seq<IpAddress>, n: nat) -> Option<Ipv6Address>
    decreases n,
{
    if n == 0 {
        None
    } else {
        match first_ipv6(ips, (n - 1) as nat) {
            Some(found) => Some(found),
            None => match ips[n - 1] {
                IpAddress::V6(address) => Some(address),
                IpAddress::V4(_) => None,
            },
        }
    }
}

/// What a tunnel says of itself when it comes up.
#[derive(Clone, Debug, PartialEq, Eq)]
pub struct TunnelMetadata {
    /// The addresses assigned to the tunnel's interface.
    pub ips: Vec<IpAddress>,
}

/// The tunnel addresses to register for a tunnel: the first IPv4 address it
/// advertises, or the reserved address if it advertises none, and the first
/// IPv6 address it advertises, if any. Without a tunnel: the reserved
/// address alone.
pub open spec fn tunnel_addresses_of(ips: Option<Seq<IpAddress>>) -> (
    Option<Ipv4Address>,
    Option<Ipv6Address>,
) {
    match ips {
        None => (Some(Ipv4Address::spec_reserved()), None),
        Some(ips) => (
            Some(
                match first_ipv4(ips, ips.len()) {
                    Some(address) => address,
                    None => Ipv4Address::spec_reserved(),
                },
            ),
            first_ipv6(ips, ips.len()),
        ),
    }
}

/// Picks the tunnel addresses to register for a tunnel.
pub fn select_tunnel_addresses(metadata: Option<&TunnelMetadata>) -> (picked: (
    Option<Ipv4Address>,
    Option<Ipv6Address>,
))
    ensures
        picked == tunnel_addresses_of(
            match metadata {
                Some(m) => Some(m.ips@),
                None => None,
            },
        ),
        picked.0.is_some(),
{
    let mut tunnel_ipv4: Option<Ipv4Address> = None;
    let mut tunnel_ipv6: Option<Ipv6Address> = None;
    if let Some(metadata) = metadata {
        let mut i: usize = 0;
        while i < metadata.ips.len()
            invariant
                i <= metadata.ips@.len(),
                tunnel_ipv4 == first_ipv4(metadata.ips@, i as nat),
                tunnel_ipv6 == first_ipv6(metadata.ips@, i as nat),
            decreases metadata.ips@.len() - i,
        {
            match metadata.ips[i] {
                IpAddress::V4(address) => {
                    if tunnel_ipv4.is_none() {
                        tunnel_ipv4 = Some(address);
                    }
                },
                IpAddress::V6(address) => {
                    if tunnel_ipv6.is_none() {
                        tunnel_ipv6 = Some(address);
                    }
                },
            }
            i += 1;
        }
    }
    let tunnel_ipv4: Option<Ipv4Address> = Some(
        match tunnel_ipv4 {
            Some(address) => address,
            None => Ipv4Address::reserved(),
        },
    );
    (tunnel_ipv4, tunnel_ipv6)
}

} // verus!
