//! Discovery through a stub resolver that is pointed at fixed name
//! servers: which servers, which family to look up, and what the lookup's
//! outcome means.

use crate::dns_error::TransportError;
use crate::ip::{DiscoveryError, IpAddress};
use vstd::prelude::*;

verus! {

/// The address family to discover.
#[derive(Clone, Copy, PartialEq, Eq, Structural, Debug)]
pub enum IpAddrKind {
    V4,
    V6,
}

/// The name servers that are reached over IPv4.
pub const OPENDNS_IPS_V4: [[u8; 4]; 4] = [
    [208, 67, 222, 222],
    [208, 67, 220, 220],
    [208, 67, 222, 220],
    [208, 67, 220, 222],
];

/// The name servers that are reached over IPv6.
pub const OPENDNS_IPS_V6: [[u8; 16]; 2] = [
    [0x26, 0x20, 0x01, 0x19, 0x00, 0x35, 0, 0, 0, 0, 0, 0, 0, 0, 0x00, 0x35],
    [0x26, 0x20, 0x01, 0x19, 0x00, 0x53, 0, 0, 0, 0, 0, 0, 0, 0, 0x00, 0x53],
];

/// The port that the name servers listen on.
pub const DNS_PORT: u16 = 53;

/// Which addresses a lookup asks for.
#[derive(Clone, Copy, PartialEq, Eq, Structural, Debug)]
pub enum LookupIpStrategy {
    Ipv4Only,
    Ipv6Only,
}

/// One name server of the resolver's configuration. Every one is asked in
/// datagrams, and its negative answers are believed.
#[derive(Clone, Debug, PartialEq, Eq)]
pub struct NameServer {
    pub address: IpAddress,
    pub port: u16,
    pub trust_negative_responses: bool,
}

/// What the stub resolver is set up with.
#[derive(Clone, Debug, PartialEq, Eq)]
pub struct ResolverSetup {
    pub name_servers: Vec<NameServer>,
    pub ip_strategy: LookupIpStrategy,
}

/// The addresses of the name servers for an address family.
pub open spec fn server_addresses(kind: IpAddrKind) -> Seq<IpAddress> {
    match kind {
        IpAddrKind::V4 => Seq::new(4, |i: int| IpAddress::V4(OPENDNS_IPS_V4[i])),
        IpAddrKind::V6 => Seq::new(2, |i: int| IpAddress::V6(OPENDNS_IPS_V6[i])),
    }
}

/// The strategy that restricts a lookup to an address family.
pub open spec fn strategy_for(kind: IpAddrKind) -> LookupIpStrategy {
    match kind {
        IpAddrKind::V4 => LookupIpStrategy::Ipv4Only,
        IpAddrKind::V6 => LookupIpStrategy::Ipv6Only,
    }
}

fn server(address: IpAddress) -> (server: NameServer)
    ensures
        server.address == address,
        server.port == DNS_PORT,
        server.trust_negative_responses,
{
    NameServer { address, port: DNS_PORT, trust_negative_responses: true }
}

/// Sets the resolver up for an address family: the name servers that are
/// reached in that family, in their fixed order, and a lookup of that
/// family only.
pub fn setup(ip_kind: IpAddrKind) -> (setup: ResolverSetup)
    ensures
        setup.ip_strategy == strategy_for(ip_kind),
        setup.name_servers@.len() == server_addresses(ip_kind).len(),
        forall|i: int|
            0 <= i < setup.name_servers@.len() ==> {
                &&& (#[trigger] setup.name_servers@[i]).address == server_addresses(ip_kind)[i]
                &&& setup.name_servers@[i].port == DNS_PORT
                &&& setup.name_servers@[i].trust_negative_responses
            },
{
    let mut name_servers: Vec<NameServer> = Vec::new();
    match ip_kind {
        IpAddrKind::V4 => {
            let mut i: usize = 0;
            while i < 4
                invariant
                    i <= 4,
                    name_servers@.len() == i,
                    forall|k: int|
                        0 <= k < i ==> {
                            &&& (#[trigger] name_servers@[k]).address == IpAddress::V4(
                                OPENDNS_IPS_V4[k],
                            )
                            &&& name_servers@[k].port == DNS_PORT
                            &&& name_servers@[k].trust_negative_responses
                        },
                decreases 4 - i,
            {
                name_servers.push(server(IpAddress::V4(OPENDNS_IPS_V4[i])));
                i += 1;
            }
            ResolverSetup { name_servers, ip_strategy: LookupIpStrategy::Ipv4Only }
        },
        IpAddrKind::V6 => {
            let mut i: usize = 0;
            while i < 2
                invariant
                    i <= 2,
                    name_servers@.len() == i,
                    forall|k: int|
                        0 <= k < i ==> {
                            &&& (#[trigger] name_servers@[k]).address == IpAddress::V6(
                                OPENDNS_IPS_V6[k],
                            )
                            &&& name_servers@[k].port == DNS_PORT
                            &&& name_servers@[k].trust_negative_responses
                        },
                decreases 2 - i,
            {
                name_servers.push(server(IpAddress::V6(OPENDNS_IPS_V6[i])));
                i += 1;
            }
            ResolverSetup { name_servers, ip_strategy: LookupIpStrategy::Ipv6Only }
        },
    }
}

/// What a discovery ends in, given what the lookup ended in: the first
/// address that the resolver returned. A failed lookup counts as a failure
/// of the network, a lookup without an address as a response of an
/// unexpected shape.
pub open spec fn looked_up(addresses: Result<Vec<IpAddress>, String>) -> Result<
    IpAddress,
    DiscoveryError,
> {
    match addresses {
        Ok(list) => if list@.len() > 0 {
            Ok(list@[0])
        } else {
            Err(DiscoveryError::UnexpectedResponse)
        },
        Err(message) => Err(DiscoveryError::Transport(TransportError::NetworkError(message))),
    }
}

/// Reads the discovered address off the outcome of the lookup; `Err` holds
/// the resolver's message.
pub fn dig(addresses: Result<Vec<IpAddress>, String>) -> (result: Result<
    IpAddress,
    DiscoveryError,
>)
    ensures
        result == looked_up(addresses),
{
    match addresses {
        Ok(list) => {
            if list.len() > 0 {
                Ok(list[0])
            } else {
                Err(DiscoveryError::UnexpectedResponse)
            }
        },
        Err(message) => Err(DiscoveryError::Transport(TransportError::NetworkError(message))),
    }
}

/// The family of an address.
pub open spec fn kind_of(address: IpAddress) -> IpAddrKind {
    match address {
        IpAddress::V4(_) => IpAddrKind::V4,
        IpAddress::V6(_) => IpAddrKind::V6,
    }
}

/// Where the first address of a lookup is of the family that was asked
/// for, the discovery gives an address, and one of that family.
pub proof fn law_lookup_keeps_family(kind: IpAddrKind, addresses: Vec<IpAddress>)
    requires
        addresses@.len() > 0,
        kind_of(addresses@[0]) == kind,
    ensures
        looked_up(Ok(addresses)) matches Ok(address) && kind_of(address) == kind,
{
}

} // verus!
