//! Controller-side Matter: the role that *commissions* accessories into a
//! fabric it owns and then drives them operationally.
//!
//! - [`setup_code`] decodes the onboarding payload an accessory presents
//!   (manual pairing code or QR payload, Matter Core Spec §5.1).
//! - [`ble`] decodes BLE adverts of commissionable accessories and decides
//!   which a scan keeps (§5.4.3.4).
//! - [`commissioner`] is the commissioning state machine (§5.5): it makes
//!   every decision and hands the host the work to perform.
//! - [`operational`] holds paths, addresses and the operational client
//!   handle (§4.13, §4.14, §8).
//! - [`network`] holds network credentials and checks a Thread dataset
//!   fetched from the local border router (§11.9).
//! - [`store`] is the record persisted for a commissioned node.
//! - [`error`] is the controller error type.
//! - [`fixed`] gives the fixed-capacity `heapless` buffers their contracts.

pub mod ble;
pub mod commissioner;
pub mod error;
pub mod fixed;
pub mod network;
pub mod operational;
pub mod setup_code;
pub mod store;

pub use error::ControllerError;

use vstd::prelude::*;

verus! {

/// The Matter Controller — owns one or more fabrics, commissions
/// accessories into them, and drives them operationally. Its construction
/// will take a fabric set, a network commissioning provider, a BLE adapter
/// and a storage backend once those are plumbed through; for now it holds
/// nothing.
#[non_exhaustive]
pub struct Controller {}

impl Controller {
    /// A controller with no fabric, adapter or storage bound yet.
    pub fn new() -> (c: Self)
        ensures
            c == (Controller {}),
    {
        Self {}
    }
}

impl Default for Controller {
    fn default() -> (c: Self)
        ensures
            c == (Controller {}),
    {
        Self::new()
    }
}

} // verus!
