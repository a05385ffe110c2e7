//! A plain-value model of the validated service network handed to the
//! resolver, and the derivation of the first service address from it.

use vstd::prelude::*;
use vstd::string::*;
use crate::error::PkiError;

verus! {

/// An IPv4 network: a 32-bit address (which may carry host bits) and a
/// prefix length. Well-formed when the prefix is at most 32 bits.
#[derive(Debug, Clone, Copy, PartialEq, Eq, Structural)]
pub struct Ipv4Net {
    pub addr: u32,
    pub prefix: u8,
}

impl Ipv4Net {
    pub open spec fn wf(self) -> bool {
        self.prefix <= 32
    }
}

/// The service network as the resolver sees it: either a validated IPv4
/// network, or a network of another address family, for which the resolver
/// falls back to the loopback address.
#[derive(Debug, Clone, Copy, PartialEq, Eq, Structural)]
pub enum ServiceNetwork {
    V4(Ipv4Net),
    Other,
}

impl ServiceNetwork {
    pub open spec fn wf(self) -> bool {
        match self {
            ServiceNetwork::V4(n) => n.wf(),
            ServiceNetwork::Other => true,
        }
    }
}

/// The IPv4 loopback address, 127.0.0.1.
pub open spec fn spec_loopback() -> u32 {
    0x7f00_0001u32
}

/// The network mask of a prefix length: the highest `prefix` bits set.
pub open spec fn spec_netmask(prefix: u8) -> u32
    recommends
        prefix <= 32,
{
    if prefix == 0 {
        0u32
    } else {
        (0xffff_ffffu32 << ((32 - prefix) as u32)) as u32
    }
}

/// The first service address of a network: the address at offset 1 from the
/// network base (the base itself stays reserved). A /32 network holds no
/// such address. A non-IPv4 network falls back to loopback.
pub open spec fn spec_first_service_ip(net: ServiceNetwork) -> Option<u32> {
    match net {
        ServiceNetwork::V4(n) => if n.prefix == 32 {
            None
        } else {
            Some((((n.addr & spec_netmask(n.prefix)) + 1) as u32))
        },
        ServiceNetwork::Other => Some(spec_loopback()),
    }
}

/// The network mask of a prefix length.
pub fn netmask(prefix: u8) -> (r: u32)
    requires
        prefix <= 32,
    ensures
        r == spec_netmask(prefix),
{
    if prefix == 0 {
        0
    } else {
        0xffff_ffffu32 << ((32 - prefix) as u32)
    }
}

/// Resolves the first service address of the network, or reports that the
/// network has none. Succeeds exactly when `spec_first_service_ip` is
/// defined; a /32 IPv4 network is the one fatal configuration.
pub fn first_service_ip(net: &ServiceNetwork) -> (r: Result<u32, PkiError>)
    requires
        net.wf(),
    ensures
        match r {
            Ok(ip) => spec_first_service_ip(*net) == Some(ip),
            Err(e) => spec_first_service_ip(*net) is None && e matches PkiError::AddressDerivation(
                _,
            ),
        },
{
    match net {
        ServiceNetwork::Other => Ok(0x7f00_0001),
        ServiceNetwork::V4(n) => {
            if n.prefix == 32 {
                Err(
                    PkiError::AddressDerivation(
                        "unable to retrieve first IP from service CIDR".to_owned(),
                    ),
                )
            } else {
                let mask = netmask(n.prefix);
                let base = n.addr & mask;
                proof {
                    let a = n.addr;
                    let p = n.prefix;
                    if p == 0 {
                        assert(a & 0u32 == 0u32) by (bit_vector);
                    } else {
                        let sh = (32 - p) as u32;
                        assert(a & (0xffff_ffffu32 << sh) < 0xffff_ffffu32) by (bit_vector)
                            requires
                                1 <= sh <= 31,
                        ;
                    }
                }
                Ok(base + 1)
            }
        },
    }
}

} // verus!
