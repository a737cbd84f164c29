//! Operational client — once a device is commissioned, this is how the
//! controller addresses it (Matter Core Spec §4.13 "Operational
//! Discovery", §4.14 "CASE", §8 "Interaction Model").
//!
//! This module holds the plain descriptions the operational side works
//! with: attribute and command paths, peer addresses, the locator used to
//! open a CASE session, and the [`OperationalClient`] handle that binds a
//! Matter runtime, a crypto provider and a fabric together.

use vstd::prelude::*;

verus! {

/// 64-bit Node Identifier within a fabric (Matter spec §2.5.5).
pub type NodeId = u64;

/// Endpoint number on a node.
pub type EndptId = u16;

/// Cluster identifier.
pub type ClusterId = u32;

/// Attribute identifier within a cluster.
pub type AttrId = u32;

/// Command identifier within a cluster.
pub type CmdId = u32;

/// A fully-qualified attribute path: `<node, endpoint, cluster, attribute>`.
#[derive(Debug, Clone, Copy, PartialEq, Eq, Structural)]
pub struct AttributePath {
    pub node: NodeId,
    pub endpoint: EndptId,
    pub cluster: ClusterId,
    pub attribute: AttrId,
}

/// A fully-qualified command path: `<node, endpoint, cluster, command>`.
#[derive(Debug, Clone, Copy, PartialEq, Eq, Structural)]
pub struct CommandPath {
    pub node: NodeId,
    pub endpoint: EndptId,
    pub cluster: ClusterId,
    pub command: CmdId,
}

/// An IP address.
#[derive(Debug, Clone, Copy, PartialEq, Eq)]
pub enum IpAddress {
    /// IPv4 address, in network byte order.
    V4([u8; 4]),
    /// IPv6 address, in network byte order.
    V6([u8; 16]),
}

/// An IP address and a port.
#[derive(Debug, Clone, Copy, PartialEq, Eq)]
pub struct SocketAddress {
    pub ip: IpAddress,
    pub port: u16,
}

/// Where a Matter peer is reached: over UDP, over TCP, or over BLE (BTP)
/// at a Bluetooth device address.
#[derive(Debug, Clone, Copy, PartialEq, Eq)]
pub enum Address {
    Udp(SocketAddress),
    Tcp(SocketAddress),
    Btp([u8; 6]),
}

/// Information needed to open a CASE session to a node when no secure
/// session is cached. The caller obtains this via mDNS-SD operational
/// discovery (`_matter._tcp.local` for `<compressed_fabric_id>-<node_id>`).
#[derive(Debug, Clone, Copy, PartialEq, Eq)]
pub struct OperationalLocator {
    pub node_id: NodeId,
    pub address: Address,
}

/// Index of a fabric in the local fabric table; never zero.
#[derive(Debug, Clone, Copy, PartialEq, Eq)]
pub struct FabricIndex {
    value: u8,
}

impl FabricIndex {
    #[verifier::type_invariant]
    spec fn nonzero(self) -> bool {
        self.value != 0
    }

    /// The index as a number.
    pub closed spec fn index(self) -> u8 {
        self.value
    }

    /// A fabric index from a number; `None` for zero.
    pub fn new(value: u8) -> (r: Option<FabricIndex>)
        ensures
            value == 0 ==> r is None,
            value != 0 ==> (r matches Some(f) && f.index() == value),
    {
        if value == 0 {
            None
        } else {
            Some(FabricIndex { value })
        }
    }

    /// The index as a number, which is never zero.
    pub fn get(&self) -> (v: u8)
        ensures
            v == self.index(),
            v != 0,
    {
        proof {
            use_type_invariant(self);
        }
        self.value
    }
}

/// The operational client. Borrows the Matter runtime (`M`) and the
/// crypto provider (`C`) for its lifetime and is bound to one fabric.
pub struct OperationalClient<'a, M, C> {
    matter: &'a M,
    crypto: &'a C,
    fabric_idx: FabricIndex,
}

impl<'a, M, C> OperationalClient<'a, M, C> {
    /// The runtime this client is bound to.
    pub closed spec fn bound_matter(&self) -> &'a M {
        self.matter
    }

    /// The crypto provider this client is bound to.
    pub closed spec fn bound_crypto(&self) -> &'a C {
        self.crypto
    }

    /// The fabric this client operates on.
    pub closed spec fn bound_fabric(&self) -> FabricIndex {
        self.fabric_idx
    }

    /// Construct an operational client bound to a specific fabric on the
    /// shared Matter runtime.
    pub fn new(matter: &'a M, crypto: &'a C, fabric_idx: FabricIndex) -> (client: Self)
        ensures
            client.bound_matter() == matter,
            client.bound_crypto() == crypto,
            client.bound_fabric() == fabric_idx,
    {
        Self { matter, crypto, fabric_idx }
    }

    /// Borrow the underlying Matter runtime.
    pub fn matter(&self) -> (m: &'a M)
        ensures
            m == self.bound_matter(),
    {
        self.matter
    }

    /// The fabric this controller is operating on.
    pub fn fabric_idx(&self) -> (f: FabricIndex)
        ensures
            f == self.bound_fabric(),
    {
        self.fabric_idx
    }
}

} // verus!
