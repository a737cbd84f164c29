//! Persistence for commissioned-device state.
//!
//! After commissioning, the controller needs to remember each accessory
//! across restarts: which fabric it belongs to, its NodeID, the
//! vendor/product info from the Basic Information cluster, and its
//! last-known operational network address (for fast reconnect before
//! falling back to mDNS lookup). The host application provides the
//! storage itself.

use vstd::prelude::*;

use crate::operational::NodeId;

verus! {

/// Persisted state for a node commissioned by this controller.
#[derive(Debug, Clone)]
pub struct StoredNode {
    pub node_id: NodeId,
    pub fabric_index: u8,
    pub vendor_id: u16,
    pub product_id: u16,
    pub software_version: u32,
    pub last_operational_ipv6: Option<[u8; 16]>,
    pub last_seen_unix_ms: u64,
    pub manufacturer: heapless::String<64>,
    pub model: heapless::String<64>,
}

} // verus!
