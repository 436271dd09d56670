//! Peer addresses: the key under which a TCP client is known.

use vstd::prelude::*;

verus! {

/// The socket address of a TCP peer, as plain numbers.
#[derive(Clone, Copy, Debug, PartialEq, Eq, Hash, Structural)]
pub enum PeerAddr {
    /// An IPv4 address (big-endian octets packed into one number) and a port.
    V4 { octets: u32, port: u16 },
    /// An IPv6 address (big-endian segments packed into one number), a port, and the
    /// flow information and scope identifier that distinguish two sockets on
    /// one address.
    V6 { segments: u128, port: u16, flowinfo: u32, scope_id: u32 },
}

/// A peer address flattened into integers: whether it is IPv6, the address
/// bits, the port, the flow information and the scope identifier.
pub type PeerKey = (bool, u128, u16, u32, u32);

/// Whether `k` is the key of some peer address.
pub open spec fn key_valid(k: PeerKey) -> bool {
    k.0 || (k.1 <= u32::MAX && k.3 == 0 && k.4 == 0)
}

/// The peer address that a key stands for.
pub open spec fn key_peer(k: PeerKey) -> PeerAddr {
    if k.0 {
        PeerAddr::V6 { segments: k.1, port: k.2, flowinfo: k.3, scope_id: k.4 }
    } else {
        PeerAddr::V4 { octets: k.1 as u32, port: k.2 }
    }
}

impl PeerAddr {
    /// The key of this address.
    pub open spec fn key_spec(self) -> PeerKey {
        match self {
            PeerAddr::V4 { octets, port } => (false, octets as u128, port, 0u32, 0u32),
            PeerAddr::V6 { segments, port, flowinfo, scope_id } => (true, segments, port, flowinfo, scope_id),
        }
    }

    /// An IPv4 peer from its four octets and port.
    pub fn v4(a: u8, b: u8, c: u8, d: u8, port: u16) -> (addr: PeerAddr)
        ensures
            addr == (PeerAddr::V4 {
                octets: (a as u32 * 0x100_0000 + b as u32 * 0x1_0000 + c as u32 * 0x100 + d as u32) as u32,
                port,
            }),
    {
        let octets: u32 = a as u32 * 0x100_0000 + b as u32 * 0x1_0000 + c as u32 * 0x100 + d as u32;
        PeerAddr::V4 { octets, port }
    }

    /// The port of this address.
    pub fn port(&self) -> (p: u16)
        ensures
            p == match *self {
                PeerAddr::V4 { port, .. } => port,
                PeerAddr::V6 { port, .. } => port,
            },
    {
        match self {
            PeerAddr::V4 { port, .. } => *port,
            PeerAddr::V6 { port, .. } => *port,
        }
    }

    /// Flattens this address into its key.
    pub(crate) fn key(&self) -> (k: PeerKey)
        ensures
            k == self.key_spec(),
            key_valid(k),
            key_peer(k) == *self,
    {
        match self {
            PeerAddr::V4 { octets, port } => (false, *octets as u128, *port, 0u32, 0u32),
            PeerAddr::V6 { segments, port, flowinfo, scope_id } => (true, *segments, *port, *flowinfo, *scope_id),
        }
    }

    /// Rebuilds the address that `k` is the key of.
    pub(crate) fn from_key(k: PeerKey) -> (addr: PeerAddr)
        requires
            key_valid(k),
        ensures
            addr == key_peer(k),
            addr.key_spec() == k,
    {
        if k.0 {
            PeerAddr::V6 { segments: k.1, port: k.2, flowinfo: k.3, scope_id: k.4 }
        } else {
            PeerAddr::V4 { octets: k.1 as u32, port: k.2 }
        }
    }
}

/// Two addresses have the same key exactly when they are the same address, and
/// every address is recovered from its key.
pub proof fn key_is_faithful(a: PeerAddr, b: PeerAddr)
    ensures
        a.key_spec() == b.key_spec() <==> a == b,
        key_valid(a.key_spec()),
        key_peer(a.key_spec()) == a,
{
}

/// A valid key is the key of the address it stands for.
pub proof fn valid_key_round_trips(k: PeerKey)
    requires
        key_valid(k),
    ensures
        key_peer(k).key_spec() == k,
{
}

} // verus!
