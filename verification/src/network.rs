//! Network credential delivery during commissioning (Matter Core Spec
//! §11.9 "Network Commissioning Cluster").
//!
//! Most Matter accessories aren't on the LAN until the controller hands
//! them network credentials over the BLE/PASE channel. This module holds
//! those credentials and the checks applied to a Thread operational
//! dataset fetched from a co-resident OpenThread Border Router
//! (`io.openthread.BorderRouter.<ifname>` on D-Bus).

use vstd::prelude::*;
use vstd::string::StringExecFns;

use crate::error::ControllerError;
use crate::fixed::{dataset_bytes, dataset_extend, dataset_new};

verus! {

/// A Thread operational dataset (the TLV-encoded blob that joins a Thread
/// network — same format `ot-ctl dataset active -x` produces).
#[derive(Debug, Clone)]
pub struct ThreadDataset {
    pub tlv: heapless::Vec<u8, 256>,
}

/// Wi-Fi credentials for a 2.4 GHz Matter accessory.
#[derive(Debug, Clone)]
pub struct WifiCredentials {
    pub ssid: heapless::String<32>,
    pub psk: heapless::Vec<u8, 64>,
}

/// The dataset the OTBR hands out: the TLV blob as returned over D-Bus,
/// which must be non-empty (an empty array means the Thread network is
/// disabled or detached) and fit in 256 bytes. Any other outcome is
/// `NetworkCommissioningFailed`.
pub fn thread_dataset_from_tlvs(bytes: &[u8]) -> (r: Result<ThreadDataset, ControllerError>)
    ensures
        bytes@.len() == 0 ==> r == Err::<ThreadDataset, ControllerError>(
            ControllerError::NetworkCommissioningFailed,
        ),
        bytes@.len() > 256 ==> r == Err::<ThreadDataset, ControllerError>(
            ControllerError::NetworkCommissioningFailed,
        ),
        0 < bytes@.len() <= 256 ==> (r matches Ok(d) && dataset_bytes(d.tlv) == bytes@),
{
    if bytes.len() == 0 {
        return Err(ControllerError::NetworkCommissioningFailed);
    }
    let mut tlv = dataset_new();
    match dataset_extend(&mut tlv, bytes) {
        Ok(()) => {
            assert(dataset_bytes(tlv) =~= bytes@);
            Ok(ThreadDataset { tlv })
        },
        Err(()) => Err(ControllerError::NetworkCommissioningFailed),
    }
}

/// The D-Bus service name of the OTBR serving Thread interface `ifname`.
pub fn otbr_service_name(ifname: &str) -> (name: String)
    ensures
        name@ == "io.openthread.BorderRouter."@ + ifname@,
{
    let mut name = String::from_str("io.openthread.BorderRouter.");
    name.append(ifname);
    name
}

/// The D-Bus object path of the OTBR serving Thread interface `ifname`.
pub fn otbr_object_path(ifname: &str) -> (path: String)
    ensures
        path@ == "/io/openthread/BorderRouter/"@ + ifname@,
{
    let mut path = String::from_str("/io/openthread/BorderRouter/");
    path.append(ifname);
    path
}

} // verus!
