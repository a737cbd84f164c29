//! End-to-end commissioning state machine (Matter Core Spec §5.5
//! "Commissioning Flow").
//!
//! Drives a Matter accessory from "advertising on BLE" through to
//! "operational on its native IP network, CASE-secured, persisted in the
//! controller store":
//!
//! ```text
//!   Idle → Parsing → Discovering → PaseHandshake → ArmFailSafe
//!        → ReadVendorInfo → AttestationVerify → CsrRequest → NocIssuance
//!        → AddTrustedRoot → AddNoc → NetworkCommissioning
//!        → CommissioningComplete → OperationalDiscovery
//!        → CaseEstablishment → Commissioned
//! ```
//!
//! The [`Commissioner`] makes every decision; the host performs the work
//! that needs the radio, the network, the Matter runtime or storage. Each
//! call hands the host a [`CommissioningAction`] to perform and takes back
//! the [`CommissioningEvent`] that reports its outcome, until the action is
//! [`CommissioningAction::Done`].
//!
//! Stages whose controller-side dependency has not landed yet (the PASE
//! initiator over BLE, the vendor-info read, attestation, CSR, NOC
//! issuance, the certificate installs, network commissioning and
//! operational discovery) end the run with the error noted at each of
//! them; [`Commissioner::progress`] then shows the stage that failed.

use vstd::prelude::*;

use crate::ble::{DiscoveredBleDevice, DiscriminatorFilter};
use crate::error::{ControllerError, Error};
use crate::fixed::{found_devices, found_first};
use crate::network::ThreadDataset;
use crate::operational::{Address, IpAddress, NodeId, OperationalLocator};
use crate::setup_code::{parse_setup_code, setup_code_result, SetupPayload};
use crate::store::StoredNode;

verus! {

// ─── Matter commissioning cluster + command IDs ──────────────────────────
/// GeneralCommissioning cluster.
pub const CL_GENERAL_COMMISSIONING: u32 = 0x0030;

/// GeneralCommissioning::ArmFailSafe (§11.10.6.1).
pub const CMD_ARM_FAIL_SAFE: u32 = 0x00;

/// GeneralCommissioning::CommissioningComplete (§11.10.6.6).
pub const CMD_COMMISSIONING_COMPLETE: u32 = 0x04;

/// OperationalCredentials cluster.
pub const CL_OPERATIONAL_CREDENTIALS: u32 = 0x003E;

/// OperationalCredentials::AttestationRequest (§11.18.6.1).
pub const CMD_ATTESTATION_REQUEST: u32 = 0x00;

/// OperationalCredentials::CSRRequest (§11.18.6.5).
pub const CMD_CSR_REQUEST: u32 = 0x04;

/// OperationalCredentials::AddNOC (§11.18.6.8).
pub const CMD_ADD_NOC: u32 = 0x06;

/// OperationalCredentials::AddTrustedRootCertificate (§11.18.6.13).
pub const CMD_ADD_TRUSTED_ROOT_CERTIFICATE: u32 = 0x0B;

/// NetworkCommissioning cluster.
pub const CL_NETWORK_COMMISSIONING: u32 = 0x0031;

/// NetworkCommissioning::AddOrUpdateThreadNetwork (§11.9.7.4).
pub const CMD_ADD_OR_UPDATE_THREAD_NETWORK: u32 = 0x03;

/// NetworkCommissioning::ConnectNetwork (§11.9.7.9).
pub const CMD_CONNECT_NETWORK: u32 = 0x06;

/// Endpoint 0 (Root Node) hosts the commissioning clusters.
pub const COMMISSIONING_ENDPOINT: u16 = 0;

/// How long the accessory keeps its fail-safe armed while we commission it.
pub const FAIL_SAFE_EXPIRY_SECONDS: u16 = 60;

/// How long a BLE scan for the accessory lasts.
pub const BLE_SCAN_TIMEOUT_MS: u32 = 10_000;

/// Where the commissioner is in the state machine. Surfaced through
/// [`Commissioner::progress`] so callers can stream progress to the
/// operator.
#[derive(Debug, Clone, Copy, PartialEq, Eq, Structural)]
#[non_exhaustive]
pub enum CommissioningStage {
    Idle,
    Parsing,
    Discovering,
    PaseHandshake,
    ArmFailSafe,
    ReadVendorInfo,
    AttestationVerify,
    CsrRequest,
    NocIssuance,
    AddTrustedRoot,
    AddNoc,
    NetworkCommissioning,
    CommissioningComplete,
    OperationalDiscovery,
    CaseEstablishment,
    Commissioned,
}

/// The position of a stage in the commissioning flow.
pub open spec fn stage_rank(s: CommissioningStage) -> int {
    match s {
        CommissioningStage::Idle => 0,
        CommissioningStage::Parsing => 1,
        CommissioningStage::Discovering => 2,
        CommissioningStage::PaseHandshake => 3,
        CommissioningStage::ArmFailSafe => 4,
        CommissioningStage::ReadVendorInfo => 5,
        CommissioningStage::AttestationVerify => 6,
        CommissioningStage::CsrRequest => 7,
        CommissioningStage::NocIssuance => 8,
        CommissioningStage::AddTrustedRoot => 9,
        CommissioningStage::AddNoc => 10,
        CommissioningStage::NetworkCommissioning => 11,
        CommissioningStage::CommissioningComplete => 12,
        CommissioningStage::OperationalDiscovery => 13,
        CommissioningStage::CaseEstablishment => 14,
        CommissioningStage::Commissioned => 15,
    }
}

/// Vendor information read from the BasicInformation cluster; the fields
/// [`StoredNode`] persists.
#[derive(Debug, Clone, Default)]
pub struct VendorInfo {
    pub vendor_id: u16,
    pub product_id: u16,
    pub software_version: u32,
    pub manufacturer: heapless::String<64>,
    pub model: heapless::String<64>,
}

/// The 16 bytes a locator's address is persisted as: an IPv6 address as
/// is, an IPv4 address mapped into IPv6 (`::ffff:a.b.c.d`), and a BLE
/// address (not an IP address) as zeros.
pub open spec fn address_bytes(address: Address) -> Seq<u8> {
    match address {
        Address::Udp(sa) => ip_bytes(sa.ip),
        Address::Tcp(sa) => ip_bytes(sa.ip),
        Address::Btp(_) => Seq::new(16, |i: int| 0u8),
    }
}

/// An IP address as 16 IPv6 bytes.
pub open spec fn ip_bytes(ip: IpAddress) -> Seq<u8> {
    match ip {
        IpAddress::V6(o) => o@,
        IpAddress::V4(o) => Seq::new(10, |i: int| 0u8) + seq![0xffu8, 0xffu8] + o@,
    }
}

/// The operational address of a locator as 16 bytes, for persisting.
pub fn locator_addr_bytes(loc: &OperationalLocator) -> (out: [u8; 16])
    ensures
        out@ == address_bytes(loc.address),
{
    let sock_addr = match loc.address {
        Address::Udp(sa) => sa,
        Address::Tcp(sa) => sa,
        Address::Btp(_) => {
            let out = [0u8; 16];
            assert(out@ =~= address_bytes(loc.address));
            return out;
        },
    };
    match sock_addr.ip {
        IpAddress::V6(v6) => v6,
        IpAddress::V4(v4) => {
            // IPv4-mapped IPv6: ::ffff:a.b.c.d
            let mut out = [0u8; 16];
            out[10] = 0xff;
            out[11] = 0xff;
            out[12] = v4[0];
            out[13] = v4[1];
            out[14] = v4[2];
            out[15] = v4[3];
            assert(out@ =~= address_bytes(loc.address));
            out
        },
    }
}

/// A command the commissioner invokes on the accessory's endpoint 0.
#[derive(Debug, Clone)]
pub enum CommissioningCommand {
    /// `GeneralCommissioning::ArmFailSafe(ExpiryLengthSeconds, Breadcrumb)`.
    ArmFailSafe { expiry_seconds: u16, breadcrumb: u64 },
    /// `OperationalCredentials::AddTrustedRootCertificate(RootCACertificate)`,
    /// installing our fabric's Root CA (a TLV-encoded certificate).
    AddTrustedRootCertificate { rcac_tlv: Vec<u8> },
    /// `GeneralCommissioning::CommissioningComplete()`.
    CommissioningComplete,
}

/// The value of a command field, as the Interaction Model encodes it.
#[derive(Debug, Clone)]
pub enum CommandFieldValue {
    /// Unsigned 16-bit integer.
    U16(u16),
    /// Unsigned 64-bit integer.
    U64(u64),
    /// Octet string.
    OctetString(Vec<u8>),
}

/// One field of a command's request, under a context tag.
#[derive(Debug, Clone)]
pub struct CommandField {
    pub tag: u8,
    pub value: CommandFieldValue,
}

/// Commissioning commands are sent with `SuppressResponse` clear: the
/// response is awaited.
pub const SUPPRESS_RESPONSE: bool = false;

/// Commissioning commands are not timed requests.
pub const TIMED_REQUEST: bool = false;

/// The `(endpoint, cluster, command)` path a command is invoked at.
pub open spec fn command_path(c: CommissioningCommand) -> (u16, u32, u32) {
    match c {
        CommissioningCommand::ArmFailSafe { .. } => (0, 0x0030, 0x00),
        CommissioningCommand::AddTrustedRootCertificate { .. } => (0, 0x003E, 0x0B),
        CommissioningCommand::CommissioningComplete => (0, 0x0030, 0x04),
    }
}

impl CommissioningCommand {
    /// The request fields of this command, in order:
    /// ArmFailSafe carries ExpiryLengthSeconds (u16) at tag 0 and
    /// Breadcrumb (u64) at tag 1; AddTrustedRootCertificate carries the
    /// certificate (octet string) at tag 0; CommissioningComplete has none.
    pub fn fields(&self) -> (f: Vec<CommandField>)
        ensures
            match *self {
                CommissioningCommand::ArmFailSafe { expiry_seconds, breadcrumb } => {
                    &&& f@.len() == 2
                    &&& f@[0].tag == 0
                    &&& f@[0].value == CommandFieldValue::U16(expiry_seconds)
                    &&& f@[1].tag == 1
                    &&& f@[1].value == CommandFieldValue::U64(breadcrumb)
                },
                CommissioningCommand::AddTrustedRootCertificate { rcac_tlv } => {
                    &&& f@.len() == 1
                    &&& f@[0].tag == 0
                    &&& f@[0].value matches CommandFieldValue::OctetString(v) && v@ == rcac_tlv@
                },
                CommissioningCommand::CommissioningComplete => f@.len() == 0,
            },
    {
        let mut f: Vec<CommandField> = Vec::new();
        match self {
            CommissioningCommand::ArmFailSafe { expiry_seconds, breadcrumb } => {
                f.push(CommandField { tag: 0, value: CommandFieldValue::U16(*expiry_seconds) });
                f.push(CommandField { tag: 1, value: CommandFieldValue::U64(*breadcrumb) });
            },
            CommissioningCommand::AddTrustedRootCertificate { rcac_tlv } => {
                let mut copy: Vec<u8> = Vec::new();
                let mut i: usize = 0;
                while i < rcac_tlv.len()
                    invariant
                        i <= rcac_tlv@.len(),
                        copy@ == rcac_tlv@.take(i as int),
                    decreases rcac_tlv@.len() - i,
                {
                    copy.push(rcac_tlv[i]);
                    i = i + 1;
                    assert(copy@ =~= rcac_tlv@.take(i as int));
                }
                assert(copy@ =~= rcac_tlv@);
                f.push(CommandField { tag: 0, value: CommandFieldValue::OctetString(copy) });
            },
            CommissioningCommand::CommissioningComplete => {},
        }
        f
    }

    /// The `(endpoint, cluster, command)` path to invoke this command at.
    pub fn path(&self) -> (p: (u16, u32, u32))
        ensures
            p == command_path(*self),
    {
        match self {
            CommissioningCommand::ArmFailSafe { .. } => (
                COMMISSIONING_ENDPOINT,
                CL_GENERAL_COMMISSIONING,
                CMD_ARM_FAIL_SAFE,
            ),
            CommissioningCommand::AddTrustedRootCertificate { .. } => (
                COMMISSIONING_ENDPOINT,
                CL_OPERATIONAL_CREDENTIALS,
                CMD_ADD_TRUSTED_ROOT_CERTIFICATE,
            ),
            CommissioningCommand::CommissioningComplete => (
                COMMISSIONING_ENDPOINT,
                CL_GENERAL_COMMISSIONING,
                CMD_COMMISSIONING_COMPLETE,
            ),
        }
    }
}

/// Work the host performs for the commissioner.
#[derive(Debug)]
pub enum CommissioningAction {
    /// Scan BLE for commissionable devices matching the discriminator;
    /// report [`CommissioningEvent::ScanCompleted`].
    Scan { discriminator: Option<DiscriminatorFilter>, timeout_ms: u32 },
    /// Connect to this device and open a BTP session over GATT; report
    /// [`CommissioningEvent::Connected`].
    Connect(DiscoveredBleDevice),
    /// Reserve the next free NodeID on the fabric; report
    /// [`CommissioningEvent::NodeIdAllocated`].
    AllocateNodeId { fabric_index: u8 },
    /// Open an unsecured exchange to the peer; report
    /// [`CommissioningEvent::UnsecuredExchangeOpened`].
    OpenUnsecuredExchange(Address),
    /// Drive PASE (Spake2+) with this passcode over the unsecured exchange;
    /// report [`CommissioningEvent::PaseEstablished`].
    RunPase { passcode: u32 },
    /// Invoke the command over the PASE-secured session; report
    /// [`CommissioningEvent::CommandCompleted`].
    Invoke(CommissioningCommand),
    /// Fetch a Thread dataset from the network credential provider; report
    /// [`CommissioningEvent::ThreadDatasetFetched`].
    FetchThreadDataset,
    /// Establish a CASE session to the located node; report
    /// [`CommissioningEvent::CaseEstablished`].
    EstablishCase(OperationalLocator),
    /// Persist the node record; report [`CommissioningEvent::NodeStored`].
    PutNode(StoredNode),
    /// The run is over, with the commissioned node's id or the error.
    Done(Result<NodeId, ControllerError>),
}

/// The outcome of an action the host performed.
#[derive(Debug)]
pub enum CommissioningEvent {
    ScanCompleted(Result<heapless::Vec<DiscoveredBleDevice, 8>, ControllerError>),
    Connected(Result<(), ControllerError>),
    NodeIdAllocated(Result<NodeId, ControllerError>),
    UnsecuredExchangeOpened(Result<(), Error>),
    PaseEstablished(Result<(), Error>),
    CommandCompleted(Result<(), ControllerError>),
    ThreadDatasetFetched(Result<ThreadDataset, ControllerError>),
    CaseEstablished(Result<(), Error>),
    NodeStored(Result<(), ControllerError>),
}

/// Which outcome the commissioner is waiting for.
#[derive(Debug, Clone, Copy, PartialEq, Eq, Structural)]
pub enum Awaiting {
    Nothing,
    ScanResult,
    Connection,
    NodeId,
    UnsecuredExchange,
    PaseSession,
    FailSafe,
    ThreadDataset,
    CaseSession,
    NodeStored,
}

/// The outcome an event reports.
pub open spec fn event_kind(ev: CommissioningEvent) -> Awaiting {
    match ev {
        CommissioningEvent::ScanCompleted(_) => Awaiting::ScanResult,
        CommissioningEvent::Connected(_) => Awaiting::Connection,
        CommissioningEvent::NodeIdAllocated(_) => Awaiting::NodeId,
        CommissioningEvent::UnsecuredExchangeOpened(_) => Awaiting::UnsecuredExchange,
        CommissioningEvent::PaseEstablished(_) => Awaiting::PaseSession,
        CommissioningEvent::CommandCompleted(_) => Awaiting::FailSafe,
        CommissioningEvent::ThreadDatasetFetched(_) => Awaiting::ThreadDataset,
        CommissioningEvent::CaseEstablished(_) => Awaiting::CaseSession,
        CommissioningEvent::NodeStored(_) => Awaiting::NodeStored,
    }
}

/// The outcome the host owes after performing an action.
pub open spec fn awaited_after(a: CommissioningAction) -> Awaiting {
    match a {
        CommissioningAction::Scan { .. } => Awaiting::ScanResult,
        CommissioningAction::Connect(_) => Awaiting::Connection,
        CommissioningAction::AllocateNodeId { .. } => Awaiting::NodeId,
        CommissioningAction::OpenUnsecuredExchange(_) => Awaiting::UnsecuredExchange,
        CommissioningAction::RunPase { .. } => Awaiting::PaseSession,
        CommissioningAction::Invoke(_) => Awaiting::FailSafe,
        CommissioningAction::FetchThreadDataset => Awaiting::ThreadDataset,
        CommissioningAction::EstablishCase(_) => Awaiting::CaseSession,
        CommissioningAction::PutNode(_) => Awaiting::NodeStored,
        CommissioningAction::Done(_) => Awaiting::Nothing,
    }
}

/// The state of a commissioner as the contracts see it.
pub struct CommissionerView {
    pub stage: CommissioningStage,
    pub awaiting: Awaiting,
    pub fabric_index: u8,
    pub payload: Option<SetupPayload>,
    pub node_id: NodeId,
    pub vendor_info: Option<VendorInfo>,
    pub locator: Option<OperationalLocator>,
    pub operational_address: Option<[u8; 16]>,
}

/// The states a run passes through: the stage matches the outcome awaited,
/// and what later steps use has been recorded.
pub open spec fn run_well_formed(c: CommissionerView) -> bool {
    match c.awaiting {
        Awaiting::Nothing => true,
        Awaiting::ScanResult => c.stage == CommissioningStage::Discovering,
        Awaiting::Connection => c.stage == CommissioningStage::Discovering,
        Awaiting::NodeId => c.stage == CommissioningStage::Discovering,
        Awaiting::UnsecuredExchange => c.stage == CommissioningStage::PaseHandshake
            && c.payload is Some,
        Awaiting::PaseSession => c.stage == CommissioningStage::PaseHandshake,
        Awaiting::FailSafe => c.stage == CommissioningStage::ArmFailSafe,
        Awaiting::ThreadDataset => c.stage == CommissioningStage::NetworkCommissioning
            && c.vendor_info is Some,
        Awaiting::CaseSession => c.stage == CommissioningStage::CaseEstablishment
            && c.vendor_info is Some && c.operational_address is Some,
        Awaiting::NodeStored => c.stage == CommissioningStage::Commissioned && c.vendor_info is Some
            && c.operational_address is Some,
    }
}

/// The scan filter for a payload: a manual code only knows the short
/// discriminator, which the scan matches against the top 4 bits of the
/// advertised one; otherwise the full discriminator is matched.
pub open spec fn scan_filter(p: SetupPayload) -> Option<DiscriminatorFilter> {
    if p.short_discriminator {
        Some(DiscriminatorFilter::Short(p.discriminator >> 8))
    } else {
        Some(DiscriminatorFilter::Long(p.discriminator))
    }
}

/// The record persisted for a commissioned node.
pub open spec fn stored_record(c: CommissionerView) -> StoredNode {
    StoredNode {
        node_id: c.node_id,
        fabric_index: c.fabric_index,
        vendor_id: c.vendor_info->0.vendor_id,
        product_id: c.vendor_info->0.product_id,
        software_version: c.vendor_info->0.software_version,
        last_operational_ipv6: c.operational_address,
        last_seen_unix_ms: 0,
        manufacturer: c.vendor_info->0.manufacturer,
        model: c.vendor_info->0.model,
    }
}

/// Ends a run with `result`, leaving the stage where it is.
pub open spec fn finish(c: CommissionerView, result: Result<NodeId, ControllerError>) -> (
    CommissionerView,
    Option<CommissioningAction>,
) {
    (CommissionerView { awaiting: Awaiting::Nothing, ..c }, Some(CommissioningAction::Done(result)))
}

/// Moves to `stage`, waiting for the outcome of `action`.
pub open spec fn request(
    c: CommissionerView,
    stage: CommissioningStage,
    action: CommissioningAction,
) -> (CommissionerView, Option<CommissioningAction>) {
    (CommissionerView { stage, awaiting: awaited_after(action), ..c }, Some(action))
}

/// Starting a run with a pairing code (BLE path): parse the code, then
/// scan for the device. A code that does not parse ends the run with
/// `PaseFailed` while `Parsing`.
pub open spec fn start_with_code_step(c: CommissionerView, code: Seq<char>, fabric_index: u8) -> (
    CommissionerView,
    CommissioningAction,
) {
    let fresh = CommissionerView {
        stage: CommissioningStage::Parsing,
        awaiting: Awaiting::Nothing,
        fabric_index,
        payload: None,
        node_id: c.node_id,
        vendor_info: None,
        locator: None,
        operational_address: None,
    };
    match setup_code_result(code) {
        Err(_) => (fresh, CommissioningAction::Done(Err(ControllerError::PaseFailed))),
        Ok(p) => (
            CommissionerView {
                stage: CommissioningStage::Discovering,
                awaiting: Awaiting::ScanResult,
                payload: Some(p),
                ..fresh
            },
            CommissioningAction::Scan { discriminator: scan_filter(p), timeout_ms: 10_000 },
        ),
    }
}

/// Starting a run with a peer already on the network: parse the code,
/// then open an unsecured exchange to the peer for PASE.
pub open spec fn start_on_network_step(
    c: CommissionerView,
    code: Seq<char>,
    fabric_index: u8,
    peer: Address,
) -> (CommissionerView, CommissioningAction) {
    let fresh = CommissionerView {
        stage: CommissioningStage::Parsing,
        awaiting: Awaiting::Nothing,
        fabric_index,
        payload: None,
        node_id: c.node_id,
        vendor_info: None,
        locator: None,
        operational_address: None,
    };
    match setup_code_result(code) {
        Err(_) => (fresh, CommissioningAction::Done(Err(ControllerError::PaseFailed))),
        Ok(p) => (
            CommissionerView {
                stage: CommissioningStage::PaseHandshake,
                awaiting: Awaiting::UnsecuredExchange,
                payload: Some(p),
                ..fresh
            },
            CommissioningAction::OpenUnsecuredExchange(peer),
        ),
    }
}

/// How the commissioner answers an event. An event that reports an
/// outcome the commissioner is not waiting for changes nothing and gets no
/// answer.
pub open spec fn commissioning_step(c: CommissionerView, ev: CommissioningEvent) -> (
    CommissionerView,
    Option<CommissioningAction>,
) {
    if c.awaiting != event_kind(ev) {
        (c, None)
    } else {
        match ev {
            CommissioningEvent::ScanCompleted(Err(e)) => finish(c, Err(e)),
            CommissioningEvent::ScanCompleted(Ok(found)) => if found_devices(found).len() == 0 {
                finish(c, Err(ControllerError::BleUnavailable))
            } else {
                request(c, c.stage, CommissioningAction::Connect(found_devices(found)[0]))
            },
            CommissioningEvent::Connected(Err(e)) => finish(c, Err(e)),
            CommissioningEvent::Connected(Ok(())) => request(
                c,
                c.stage,
                CommissioningAction::AllocateNodeId { fabric_index: c.fabric_index },
            ),
            CommissioningEvent::NodeIdAllocated(Err(e)) => finish(c, Err(e)),
            // The BLE-backed PASE initiator has not landed: the run stops
            // in the handshake stage.
            CommissioningEvent::NodeIdAllocated(Ok(id)) => finish(
                CommissionerView { stage: CommissioningStage::PaseHandshake, node_id: id, ..c },
                Err(ControllerError::PaseFailed),
            ),
            CommissioningEvent::UnsecuredExchangeOpened(Err(e)) => finish(
                c,
                Err(ControllerError::Inner(e)),
            ),
            CommissioningEvent::UnsecuredExchangeOpened(Ok(())) => request(
                c,
                c.stage,
                CommissioningAction::RunPase { passcode: c.payload->0.passcode },
            ),
            CommissioningEvent::PaseEstablished(Err(_)) => finish(
                c,
                Err(ControllerError::PaseFailed),
            ),
            CommissioningEvent::PaseEstablished(Ok(())) => request(
                c,
                CommissioningStage::ArmFailSafe,
                CommissioningAction::Invoke(
                    CommissioningCommand::ArmFailSafe { expiry_seconds: 60, breadcrumb: 0 },
                ),
            ),
            CommissioningEvent::CommandCompleted(Err(e)) => finish(c, Err(e)),
            // The stages after ArmFailSafe are not wired for the
            // on-network path yet.
            CommissioningEvent::CommandCompleted(Ok(())) => finish(
                c,
                Err(ControllerError::PaseFailed),
            ),
            CommissioningEvent::ThreadDatasetFetched(Err(e)) => finish(
                CommissionerView { stage: CommissioningStage::NetworkCommissioning, ..c },
                Err(e),
            ),
            // Delivering the dataset to the accessory has not landed yet.
            CommissioningEvent::ThreadDatasetFetched(Ok(_)) => finish(
                CommissionerView { stage: CommissioningStage::NetworkCommissioning, ..c },
                Err(ControllerError::NetworkCommissioningFailed),
            ),
            CommissioningEvent::CaseEstablished(Err(e)) => finish(
                c,
                Err(ControllerError::Inner(e)),
            ),
            CommissioningEvent::CaseEstablished(Ok(())) => request(
                c,
                CommissioningStage::Commissioned,
                CommissioningAction::PutNode(stored_record(c)),
            ),
            CommissioningEvent::NodeStored(Err(e)) => finish(c, Err(e)),
            CommissioningEvent::NodeStored(Ok(())) => finish(c, Ok(c.node_id)),
        }
    }
}

/// A commissioner before its first run: idle, waiting for nothing, with
/// nothing recorded.
pub open spec fn idle_commissioner() -> CommissionerView {
    CommissionerView {
        stage: CommissioningStage::Idle,
        awaiting: Awaiting::Nothing,
        fabric_index: 0,
        payload: None,
        node_id: 0,
        vendor_info: None,
        locator: None,
        operational_address: None,
    }
}

/// Top-level controller-side commissioner.
pub struct Commissioner {
    stage: CommissioningStage,
    awaiting: Awaiting,
    fabric_index: u8,
    payload: Option<SetupPayload>,
    node_id: NodeId,
    vendor_info: Option<VendorInfo>,
    locator: Option<OperationalLocator>,
    operational_address: Option<[u8; 16]>,
}

impl View for Commissioner {
    type V = CommissionerView;

    closed spec fn view(&self) -> CommissionerView {
        CommissionerView {
            stage: self.stage,
            awaiting: self.awaiting,
            fabric_index: self.fabric_index,
            payload: self.payload,
            node_id: self.node_id,
            vendor_info: self.vendor_info,
            locator: self.locator,
            operational_address: self.operational_address,
        }
    }
}

impl Commissioner {
    #[verifier::type_invariant]
    spec fn well_formed(self) -> bool {
        run_well_formed(self@)
    }

    /// A commissioner that has not started any run.
    pub fn new() -> (c: Self)
        ensures
            c@ == idle_commissioner(),
    {
        Self {
            stage: CommissioningStage::Idle,
            awaiting: Awaiting::Nothing,
            fabric_index: 0,
            payload: None,
            node_id: 0,
            vendor_info: None,
            locator: None,
            operational_address: None,
        }
    }

    /// Current stage. Useful for UI progress reporting.
    pub fn progress(&self) -> (s: CommissioningStage)
        ensures
            s == self@.stage,
    {
        self.stage
    }

    /// The outcome the commissioner waits for next.
    pub fn awaiting(&self) -> (a: Awaiting)
        ensures
            a == self@.awaiting,
    {
        self.awaiting
    }

    /// Begin commissioning a device with an 11-digit pairing code or a QR
    /// onboarding payload, over BLE, into fabric `fabric_index`. Any run in
    /// progress is abandoned.
    pub fn start_with_code(&mut self, code: &str, fabric_index: u8) -> (action: CommissioningAction)
        ensures
            (final(self)@, action) == start_with_code_step(old(self)@, code@, fabric_index),
    {
        let parsed = parse_setup_code(code);
        let node_id = self.node_id;
        match parsed {
            Err(_) => {
                *self = Commissioner {
                    stage: CommissioningStage::Parsing,
                    awaiting: Awaiting::Nothing,
                    fabric_index,
                    payload: None,
                    node_id,
                    vendor_info: None,
                    locator: None,
                    operational_address: None,
                };
                CommissioningAction::Done(Err(ControllerError::PaseFailed))
            },
            Ok(payload) => {
                // Manual codes only carry the top 4 bits of the 12-bit
                // discriminator; the scan matches whichever we have.
                let want = if payload.short_discriminator {
                    Some(DiscriminatorFilter::Short(payload.discriminator >> 8))
                } else {
                    Some(DiscriminatorFilter::Long(payload.discriminator))
                };
                *self = Commissioner {
                    stage: CommissioningStage::Discovering,
                    awaiting: Awaiting::ScanResult,
                    fabric_index,
                    payload: Some(payload),
                    node_id,
                    vendor_info: None,
                    locator: None,
                    operational_address: None,
                };
                CommissioningAction::Scan { discriminator: want, timeout_ms: BLE_SCAN_TIMEOUT_MS }
            },
        }
    }

    /// Begin commissioning an accessory already reachable on the
    /// operational network at `peer` (no BLE step), into fabric
    /// `fabric_index`. Any run in progress is abandoned.
    pub fn start_on_network(&mut self, code: &str, fabric_index: u8, peer: Address) -> (action: CommissioningAction)
        ensures
            (final(self)@, action) == start_on_network_step(old(self)@, code@, fabric_index, peer),
    {
        let parsed = parse_setup_code(code);
        let node_id = self.node_id;
        match parsed {
            Err(_) => {
                *self = Commissioner {
                    stage: CommissioningStage::Parsing,
                    awaiting: Awaiting::Nothing,
                    fabric_index,
                    payload: None,
                    node_id,
                    vendor_info: None,
                    locator: None,
                    operational_address: None,
                };
                CommissioningAction::Done(Err(ControllerError::PaseFailed))
            },
            Ok(payload) => {
                *self = Commissioner {
                    stage: CommissioningStage::PaseHandshake,
                    awaiting: Awaiting::UnsecuredExchange,
                    fabric_index,
                    payload: Some(payload),
                    node_id,
                    vendor_info: None,
                    locator: None,
                    operational_address: None,
                };
                CommissioningAction::OpenUnsecuredExchange(peer)
            },
        }
    }

    fn finish_run(&mut self, result: Result<NodeId, ControllerError>) -> (action: Option<CommissioningAction>)
        ensures
            (final(self)@, action) == finish(old(self)@, result),
    {
        proof {
            use_type_invariant(&*self);
        }
        self.awaiting = Awaiting::Nothing;
        Some(CommissioningAction::Done(result))
    }

    fn await_outcome(&mut self, action: CommissioningAction, awaiting: Awaiting) -> (r: Option<CommissioningAction>)
        requires
            awaiting == awaited_after(action),
            run_well_formed(CommissionerView { awaiting, ..old(self)@ }),
        ensures
            (final(self)@, r) == request(old(self)@, old(self)@.stage, action),
    {
        proof {
            use_type_invariant(&*self);
        }
        self.awaiting = awaiting;
        Some(action)
    }

    // ── Stages whose controller-side dependency has not landed ─────────
    fn run_pase(&mut self) -> (r: Result<(), ControllerError>)
        requires
            old(self)@.awaiting == Awaiting::Nothing,
        ensures
            final(self)@ == (CommissionerView { stage: CommissioningStage::PaseHandshake, ..old(self)@ }),
            r == Err::<(), ControllerError>(ControllerError::PaseFailed),
    {
        proof {
            use_type_invariant(&*self);
        }
        // Spake2+ from the controller side over the BLE session needs a
        // public PASE initiator on that transport.
        self.stage = CommissioningStage::PaseHandshake;
        Err(ControllerError::PaseFailed)
    }

    fn arm_fail_safe(&mut self) -> (r: Result<(), ControllerError>)
        requires
            old(self)@.awaiting == Awaiting::Nothing,
        ensures
            final(self)@ == (CommissionerView { stage: CommissioningStage::ArmFailSafe, ..old(self)@ }),
            r == Err::<(), ControllerError>(ControllerError::FailSafeExpired),
    {
        proof {
            use_type_invariant(&*self);
        }
        self.stage = CommissioningStage::ArmFailSafe;
        Err(ControllerError::FailSafeExpired)
    }

    fn read_vendor_info(&mut self) -> (r: Result<VendorInfo, ControllerError>)
        requires
            old(self)@.awaiting == Awaiting::Nothing,
        ensures
            final(self)@ == (CommissionerView { stage: CommissioningStage::ReadVendorInfo, ..old(self)@ }),
            r matches Err(e) && e == ControllerError::PaseFailed,
    {
        proof {
            use_type_invariant(&*self);
        }
        self.stage = CommissioningStage::ReadVendorInfo;
        Err(ControllerError::PaseFailed)
    }

    fn verify_attestation(&mut self) -> (r: Result<(), ControllerError>)
        requires
            old(self)@.awaiting == Awaiting::Nothing,
        ensures
            final(self)@ == (CommissionerView { stage: CommissioningStage::AttestationVerify, ..old(self)@ }),
            r == Err::<(), ControllerError>(ControllerError::PaseFailed),
    {
        proof {
            use_type_invariant(&*self);
        }
        self.stage = CommissioningStage::AttestationVerify;
        Err(ControllerError::PaseFailed)
    }

    fn request_csr(&mut self) -> (r: Result<heapless::Vec<u8, 256>, ControllerError>)
        requires
            old(self)@.awaiting == Awaiting::Nothing,
        ensures
            final(self)@ == (CommissionerView { stage: CommissioningStage::CsrRequest, ..old(self)@ }),
            r matches Err(e) && e == ControllerError::PaseFailed,
    {
        proof {
            use_type_invariant(&*self);
        }
        self.stage = CommissioningStage::CsrRequest;
        Err(ControllerError::PaseFailed)
    }

    fn issue_noc(&mut self, _node_id: NodeId) -> (r: Result<heapless::Vec<u8, 400>, ControllerError>)
        requires
            old(self)@.awaiting == Awaiting::Nothing,
        ensures
            final(self)@ == (CommissionerView { stage: CommissioningStage::NocIssuance, ..old(self)@ }),
            r matches Err(e) && e == ControllerError::PaseFailed,
    {
        proof {
            use_type_invariant(&*self);
        }
        self.stage = CommissioningStage::NocIssuance;
        Err(ControllerError::PaseFailed)
    }

    fn add_trusted_root(&mut self) -> (r: Result<(), ControllerError>)
        requires
            old(self)@.awaiting == Awaiting::Nothing,
        ensures
            final(self)@ == (CommissionerView { stage: CommissioningStage::AddTrustedRoot, ..old(self)@ }),
            r == Err::<(), ControllerError>(ControllerError::PaseFailed),
    {
        proof {
            use_type_invariant(&*self);
        }
        self.stage = CommissioningStage::AddTrustedRoot;
        Err(ControllerError::PaseFailed)
    }

    fn add_noc(&mut self) -> (r: Result<(), ControllerError>)
        requires
            old(self)@.awaiting == Awaiting::Nothing,
        ensures
            final(self)@ == (CommissionerView { stage: CommissioningStage::AddNoc, ..old(self)@ }),
            r == Err::<(), ControllerError>(ControllerError::AddNocRejected),
    {
        proof {
            use_type_invariant(&*self);
        }
        self.stage = CommissioningStage::AddNoc;
        Err(ControllerError::AddNocRejected)
    }

    fn commission_network(&mut self, dataset: Result<ThreadDataset, ControllerError>) -> (r: Result<(), ControllerError>)
        requires
            old(self)@.awaiting == Awaiting::Nothing,
        ensures
            final(self)@ == (CommissionerView { stage: CommissioningStage::NetworkCommissioning, ..old(self)@ }),
            dataset matches Err(e) ==> r == Err::<(), ControllerError>(e),
            dataset is Ok ==> r == Err::<(), ControllerError>(ControllerError::NetworkCommissioningFailed),
    {
        proof {
            use_type_invariant(&*self);
        }
        self.stage = CommissioningStage::NetworkCommissioning;
        match dataset {
            Err(e) => Err(e),
            // Handing the dataset to the accessory
            // (AddOrUpdateThreadNetwork, then ConnectNetwork) is not wired yet.
            Ok(_dataset) => Err(ControllerError::NetworkCommissioningFailed),
        }
    }

    fn commissioning_complete(&mut self) -> (r: Result<(), ControllerError>)
        requires
            old(self)@.awaiting == Awaiting::Nothing,
        ensures
            final(self)@ == (CommissionerView { stage: CommissioningStage::CommissioningComplete, ..old(self)@ }),
            r == Err::<(), ControllerError>(ControllerError::FailSafeExpired),
    {
        proof {
            use_type_invariant(&*self);
        }
        self.stage = CommissioningStage::CommissioningComplete;
        Err(ControllerError::FailSafeExpired)
    }

    fn operational_discovery(&mut self, _node_id: NodeId) -> (r: Result<OperationalLocator, ControllerError>)
        requires
            old(self)@.awaiting == Awaiting::Nothing,
        ensures
            final(self)@ == (CommissionerView { stage: CommissioningStage::OperationalDiscovery, ..old(self)@ }),
            r matches Err(e) && e == ControllerError::OperationalDiscoveryFailed,
    {
        proof {
            use_type_invariant(&*self);
        }
        // The controller-side mDNS-SD query for `_matter._tcp.local` has
        // not landed.
        self.stage = CommissioningStage::OperationalDiscovery;
        Err(ControllerError::OperationalDiscoveryFailed)
    }

    /// Report the outcome of the last action; the answer is the next action
    /// to perform, or `None` when the commissioner was not waiting for this
    /// kind of outcome (nothing changes then).
    pub fn on_event(&mut self, event: CommissioningEvent) -> (action: Option<CommissioningAction>)
        ensures
            (final(self)@, action) == commissioning_step(old(self)@, event),
    {
        proof {
            use_type_invariant(&*self);
        }
        if !awaits(self.awaiting, &event) {
            return None;
        }
        self.awaiting = Awaiting::Nothing;
        match event {
            CommissioningEvent::ScanCompleted(Err(e)) => self.finish_run(Err(e)),
            CommissioningEvent::ScanCompleted(Ok(found)) => match found_first(&found) {
                None => self.finish_run(Err(ControllerError::BleUnavailable)),
                Some(dev) => {
                    let dev = *dev;
                    self.await_outcome(CommissioningAction::Connect(dev), Awaiting::Connection)
                },
            },
            CommissioningEvent::Connected(Err(e)) => self.finish_run(Err(e)),
            CommissioningEvent::Connected(Ok(())) => {
                let fabric_index = self.fabric_index;
                self.await_outcome(
                    CommissioningAction::AllocateNodeId { fabric_index },
                    Awaiting::NodeId,
                )
            },
            CommissioningEvent::NodeIdAllocated(Err(e)) => self.finish_run(Err(e)),
            CommissioningEvent::NodeIdAllocated(Ok(node_id)) => {
                self.node_id = node_id;
                if let Err(e) = self.run_pase() {
                    return self.finish_run(Err(e));
                }
                if let Err(e) = self.arm_fail_safe() {
                    return self.finish_run(Err(e));
                }
                let vendor_info = match self.read_vendor_info() {
                    Ok(v) => v,
                    Err(e) => {
                        return self.finish_run(Err(e));
                    },
                };
                if let Err(e) = self.verify_attestation() {
                    return self.finish_run(Err(e));
                }
                if let Err(e) = self.request_csr() {
                    return self.finish_run(Err(e));
                }
                if let Err(e) = self.issue_noc(node_id) {
                    return self.finish_run(Err(e));
                }
                if let Err(e) = self.add_trusted_root() {
                    return self.finish_run(Err(e));
                }
                if let Err(e) = self.add_noc() {
                    return self.finish_run(Err(e));
                }
                self.vendor_info = Some(vendor_info);
                self.stage = CommissioningStage::NetworkCommissioning;
                self.await_outcome(CommissioningAction::FetchThreadDataset, Awaiting::ThreadDataset)
            },
            CommissioningEvent::UnsecuredExchangeOpened(Err(e)) => self.finish_run(
                Err(ControllerError::from(e)),
            ),
            CommissioningEvent::UnsecuredExchangeOpened(Ok(())) => {
                let passcode = match &self.payload {
                    Some(p) => p.passcode,
                    None => 0,
                };
                self.awaiting = Awaiting::PaseSession;
                Some(CommissioningAction::RunPase { passcode })
            },
            CommissioningEvent::PaseEstablished(Err(_)) => self.finish_run(
                Err(ControllerError::PaseFailed),
            ),
            CommissioningEvent::PaseEstablished(Ok(())) => {
                // Give ourselves 60 s to complete commissioning before the
                // device rolls back.
                self.stage = CommissioningStage::ArmFailSafe;
                self.await_outcome(
                    CommissioningAction::Invoke(
                        CommissioningCommand::ArmFailSafe {
                            expiry_seconds: FAIL_SAFE_EXPIRY_SECONDS,
                            breadcrumb: 0,
                        },
                    ),
                    Awaiting::FailSafe,
                )
            },
            CommissioningEvent::CommandCompleted(Err(e)) => self.finish_run(Err(e)),
            CommissioningEvent::CommandCompleted(Ok(())) => self.finish_run(
                Err(ControllerError::PaseFailed),
            ),
            CommissioningEvent::ThreadDatasetFetched(dataset) => {
                if let Err(e) = self.commission_network(dataset) {
                    return self.finish_run(Err(e));
                }
                if let Err(e) = self.commissioning_complete() {
                    return self.finish_run(Err(e));
                }
                let node_id = self.node_id;
                let locator = match self.operational_discovery(node_id) {
                    Ok(l) => l,
                    Err(e) => {
                        return self.finish_run(Err(e));
                    },
                };
                let address = locator_addr_bytes(&locator);
                self.stage = CommissioningStage::CaseEstablishment;
                self.locator = Some(locator);
                self.operational_address = Some(address);
                self.awaiting = Awaiting::CaseSession;
                Some(CommissioningAction::EstablishCase(locator))
            },
            CommissioningEvent::CaseEstablished(Err(e)) => self.finish_run(
                Err(ControllerError::from(e)),
            ),
            CommissioningEvent::CaseEstablished(Ok(())) => {
                self.stage = CommissioningStage::Commissioned;
                let record = self.stored_record();
                self.awaiting = Awaiting::NodeStored;
                Some(CommissioningAction::PutNode(record))
            },
            CommissioningEvent::NodeStored(Err(e)) => self.finish_run(Err(e)),
            CommissioningEvent::NodeStored(Ok(())) => {
                let node_id = self.node_id;
                self.finish_run(Ok(node_id))
            },
        }
    }

    fn stored_record(&self) -> (n: StoredNode)
        requires
            self@.vendor_info is Some,
        ensures
            n == stored_record(self@),
    {
        let vi = match &self.vendor_info {
            Some(v) => v,
            None => vstd::pervasive::unreached(),
        };
        StoredNode {
            node_id: self.node_id,
            fabric_index: self.fabric_index,
            vendor_id: vi.vendor_id,
            product_id: vi.product_id,
            software_version: vi.software_version,
            last_operational_ipv6: self.operational_address,
            last_seen_unix_ms: 0,
            manufacturer: vi.manufacturer.clone(),
            model: vi.model.clone(),
        }
    }
}

/// Whether `awaiting` is the outcome `event` reports.
fn awaits(awaiting: Awaiting, event: &CommissioningEvent) -> (r: bool)
    ensures
        r == (awaiting == event_kind(*event)),
{
    let kind = match event {
        CommissioningEvent::ScanCompleted(_) => Awaiting::ScanResult,
        CommissioningEvent::Connected(_) => Awaiting::Connection,
        CommissioningEvent::NodeIdAllocated(_) => Awaiting::NodeId,
        CommissioningEvent::UnsecuredExchangeOpened(_) => Awaiting::UnsecuredExchange,
        CommissioningEvent::PaseEstablished(_) => Awaiting::PaseSession,
        CommissioningEvent::CommandCompleted(_) => Awaiting::FailSafe,
        CommissioningEvent::ThreadDatasetFetched(_) => Awaiting::ThreadDataset,
        CommissioningEvent::CaseEstablished(_) => Awaiting::CaseSession,
        CommissioningEvent::NodeStored(_) => Awaiting::NodeStored,
    };
    awaiting == kind
}

impl Default for Commissioner {
    fn default() -> (c: Self)
        ensures
            c@ == idle_commissioner(),
    {
        Self::new()
    }
}

// ─── Laws ───────────────────────────────────────────────────────────────
/// A commissioner answers only the outcome it waits for: any other event
/// changes nothing and gets no answer.
pub proof fn law_unexpected_outcome_ignored(c: CommissionerView, ev: CommissioningEvent)
    requires
        c.awaiting != event_kind(ev),
    ensures
        commissioning_step(c, ev) == (c, None::<CommissioningAction>),
{
}

/// Every answer is followed by waiting for exactly that action's outcome,
/// and after `Done` for nothing; an awaited event always gets an answer.
pub proof fn law_answer_sets_awaited_outcome(c: CommissionerView, ev: CommissioningEvent)
    ensures
        c.awaiting == event_kind(ev) ==> commissioning_step(c, ev).1 is Some,
        commissioning_step(c, ev).1 matches Some(a) ==> commissioning_step(c, ev).0.awaiting
            == awaited_after(a),
{
}

/// Starting a run answers with an action and then waits for its outcome.
pub proof fn law_start_sets_awaited_outcome(
    c: CommissionerView,
    code: Seq<char>,
    fabric_index: u8,
    peer: Address,
)
    ensures
        start_with_code_step(c, code, fabric_index).0.awaiting == awaited_after(
            start_with_code_step(c, code, fabric_index).1,
        ),
        start_on_network_step(c, code, fabric_index, peer).0.awaiting == awaited_after(
            start_on_network_step(c, code, fabric_index, peer).1,
        ),
{
}

/// Runs start well-formed and every step keeps them so.
pub proof fn law_runs_stay_well_formed(
    c: CommissionerView,
    ev: CommissioningEvent,
    code: Seq<char>,
    fabric_index: u8,
    peer: Address,
)
    ensures
        run_well_formed(start_with_code_step(c, code, fabric_index).0),
        run_well_formed(start_on_network_step(c, code, fabric_index, peer).0),
        run_well_formed(c) ==> run_well_formed(commissioning_step(c, ev).0),
{
}

/// Within a run the stage never moves backwards.
pub proof fn law_stage_never_regresses(c: CommissionerView, ev: CommissioningEvent)
    requires
        run_well_formed(c),
    ensures
        stage_rank(commissioning_step(c, ev).0.stage) >= stage_rank(c.stage),
{
}

/// A run reports success only after the node record was stored, in stage
/// `Commissioned`, and with the node id that was allocated for it.
pub proof fn law_success_only_when_commissioned(c: CommissionerView, ev: CommissioningEvent)
    requires
        run_well_formed(c),
    ensures
        commissioning_step(c, ev).1 matches Some(CommissioningAction::Done(Ok(id))) ==> {
            &&& c.awaiting == Awaiting::NodeStored
            &&& ev matches CommissioningEvent::NodeStored(Ok(_))
            &&& commissioning_step(c, ev).0.stage == CommissioningStage::Commissioned
            &&& id == c.node_id
        },
{
}

/// While the stages between PASE and CASE lack their controller-side
/// dependency, no run comes to wait for a CASE session or for the node
/// record to be stored: starts never do, and no step from a state that
/// does not already do so leads there. So every run ends in an error.
pub proof fn law_runs_end_before_case(
    c: CommissionerView,
    ev: CommissioningEvent,
    code: Seq<char>,
    fabric_index: u8,
    peer: Address,
)
    ensures
        start_with_code_step(c, code, fabric_index).0.awaiting != Awaiting::CaseSession,
        start_with_code_step(c, code, fabric_index).0.awaiting != Awaiting::NodeStored,
        start_on_network_step(c, code, fabric_index, peer).0.awaiting != Awaiting::CaseSession,
        start_on_network_step(c, code, fabric_index, peer).0.awaiting != Awaiting::NodeStored,
        c.awaiting != Awaiting::CaseSession && c.awaiting != Awaiting::NodeStored ==> {
            &&& commissioning_step(c, ev).0.awaiting != Awaiting::CaseSession
            &&& commissioning_step(c, ev).0.awaiting != Awaiting::NodeStored
            &&& !(commissioning_step(c, ev).1 matches Some(CommissioningAction::Done(Ok(_))))
        },
{
}

/// A scan started for a payload keeps the device the payload describes:
/// with a short discriminator, any advert whose top 4 of 12 bits match it;
/// with a full one, the advert carrying exactly that discriminator.
pub proof fn law_scan_keeps_the_described_device(p: SetupPayload, advertised: u16)
    requires
        p.discriminator < 4096,
        advertised < 4096,
        p.short_discriminator ==> advertised / 256 == p.discriminator / 256,
        !p.short_discriminator ==> advertised == p.discriminator,
    ensures
        crate::ble::passes_filter(scan_filter(p), advertised),
{
    let d = p.discriminator;
    assert(d >> 8 == d / 256) by (bit_vector);
}

/// A run started with a pairing code first scans for exactly the device the
/// code describes, for ten seconds: with a manual code's short discriminator
/// `s` the scan keeps adverts whose top 4 of 12 bits are `s`, otherwise the
/// advert carrying the full discriminator. The scan always has a filter.
pub proof fn law_start_with_code_scans_for_the_payload(c: CommissionerView, code: Seq<char>, fabric_index: u8)
    ensures
        setup_code_result(code) matches Ok(p) ==> start_with_code_step(c, code, fabric_index).1
            == (CommissioningAction::Scan {
            discriminator: Some(
                if p.short_discriminator {
                    DiscriminatorFilter::Short(p.discriminator >> 8)
                } else {
                    DiscriminatorFilter::Long(p.discriminator)
                },
            ),
            timeout_ms: 10_000,
        }),
{
}

/// The scan for a payload keeps an advert exactly when its discriminator
/// agrees with the payload's: in the top 4 of 12 bits for a short
/// discriminator, in all 12 bits otherwise.
pub proof fn law_scan_keeps_only_the_described_device(p: SetupPayload, advertised: u16)
    requires
        p.discriminator < 4096,
        advertised < 4096,
    ensures
        crate::ble::passes_filter(scan_filter(p), advertised) <==> if p.short_discriminator {
            advertised / 256 == p.discriminator / 256
        } else {
            advertised == p.discriminator
        },
{
    let d = p.discriminator;
    assert(d >> 8 == d / 256) by (bit_vector);
}

/// Starting a run depends only on the code, the fabric and the peer, never
/// on an earlier run: two commissioners given the same start answer the
/// same action and hold the same payload, stage and awaited outcome. The
/// payload held is the one the code parses to, so the PASE handshake that
/// follows an opened exchange uses this code's passcode; a code that does
/// not parse ends the run with `PaseFailed`.
pub proof fn law_start_uses_the_given_code(
    c1: CommissionerView,
    c2: CommissionerView,
    code: Seq<char>,
    fabric_index: u8,
    peer: Address,
)
    ensures
        ({
            let (s1, a1) = start_on_network_step(c1, code, fabric_index, peer);
            let (s2, a2) = start_on_network_step(c2, code, fabric_index, peer);
            &&& a1 == a2
            &&& s1.payload == s2.payload && s1.stage == s2.stage && s1.awaiting == s2.awaiting
            &&& s1.fabric_index == fabric_index
            &&& setup_code_result(code) matches Ok(p) ==> {
                &&& s1.payload == Some(p)
                &&& a1 == CommissioningAction::OpenUnsecuredExchange(peer)
                &&& commissioning_step(s1, CommissioningEvent::UnsecuredExchangeOpened(Ok(())))
                    == (
                    CommissionerView { awaiting: Awaiting::PaseSession, ..s1 },
                    Some(CommissioningAction::RunPase { passcode: p.passcode }),
                )
            }
            &&& setup_code_result(code) is Err ==> a1 == CommissioningAction::Done(
                Err(ControllerError::PaseFailed),
            )
        }),
        ({
            let (s1, a1) = start_with_code_step(c1, code, fabric_index);
            let (s2, a2) = start_with_code_step(c2, code, fabric_index);
            &&& a1 == a2
            &&& s1.payload == s2.payload && s1.stage == s2.stage && s1.awaiting == s2.awaiting
            &&& s1.fabric_index == fabric_index
            &&& setup_code_result(code) matches Ok(p) ==> s1.payload == Some(p)
            &&& setup_code_result(code) is Err ==> a1 == CommissioningAction::Done(
                Err(ControllerError::PaseFailed),
            )
        }),
{
}

/// What each successful outcome leads to: a scan that found devices
/// connects to the first one found and one that found none ends the run
/// with `BleUnavailable`; a connection asks for a node id on the run's
/// fabric; an allocated id is recorded and, the BLE-backed PASE initiator
/// being absent, the run ends with `PaseFailed` in the handshake stage; an
/// opened exchange runs PASE with the payload's passcode; an established
/// PASE session arms the fail-safe for 60 seconds with breadcrumb 0; once
/// armed, the on-network run ends with `PaseFailed`; an established CASE
/// session persists the node; a stored node ends the run with its id.
pub proof fn law_successful_outcomes_advance(
    c: CommissionerView,
    found: heapless::Vec<DiscoveredBleDevice, 8>,
    id: NodeId,
)
    ensures
        c.awaiting == Awaiting::ScanResult && found_devices(found).len() > 0 ==> commissioning_step(
            c,
            CommissioningEvent::ScanCompleted(Ok(found)),
        ) == (CommissionerView { awaiting: Awaiting::Connection, ..c }, Some(
            CommissioningAction::Connect(found_devices(found)[0]),
        )),
        c.awaiting == Awaiting::ScanResult && found_devices(found).len() == 0 ==> commissioning_step(
            c,
            CommissioningEvent::ScanCompleted(Ok(found)),
        ) == (CommissionerView { awaiting: Awaiting::Nothing, ..c }, Some(
            CommissioningAction::Done(Err(ControllerError::BleUnavailable)),
        )),
        c.awaiting == Awaiting::Connection ==> commissioning_step(
            c,
            CommissioningEvent::Connected(Ok(())),
        ) == (CommissionerView { awaiting: Awaiting::NodeId, ..c }, Some(
            CommissioningAction::AllocateNodeId { fabric_index: c.fabric_index },
        )),
        c.awaiting == Awaiting::NodeId ==> commissioning_step(
            c,
            CommissioningEvent::NodeIdAllocated(Ok(id)),
        ) == (CommissionerView {
            awaiting: Awaiting::Nothing,
            stage: CommissioningStage::PaseHandshake,
            node_id: id,
            ..c
        }, Some(CommissioningAction::Done(Err(ControllerError::PaseFailed)))),
        c.awaiting == Awaiting::UnsecuredExchange ==> commissioning_step(
            c,
            CommissioningEvent::UnsecuredExchangeOpened(Ok(())),
        ) == (CommissionerView { awaiting: Awaiting::PaseSession, ..c }, Some(
            CommissioningAction::RunPase { passcode: c.payload->0.passcode },
        )),
        c.awaiting == Awaiting::PaseSession ==> commissioning_step(
            c,
            CommissioningEvent::PaseEstablished(Ok(())),
        ) == (CommissionerView {
            awaiting: Awaiting::FailSafe,
            stage: CommissioningStage::ArmFailSafe,
            ..c
        }, Some(
            CommissioningAction::Invoke(
                CommissioningCommand::ArmFailSafe { expiry_seconds: 60, breadcrumb: 0 },
            ),
        )),
        c.awaiting == Awaiting::FailSafe ==> commissioning_step(
            c,
            CommissioningEvent::CommandCompleted(Ok(())),
        ) == (CommissionerView { awaiting: Awaiting::Nothing, ..c }, Some(
            CommissioningAction::Done(Err(ControllerError::PaseFailed)),
        )),
        c.awaiting == Awaiting::CaseSession ==> commissioning_step(
            c,
            CommissioningEvent::CaseEstablished(Ok(())),
        ) == (CommissionerView {
            awaiting: Awaiting::NodeStored,
            stage: CommissioningStage::Commissioned,
            ..c
        }, Some(
            CommissioningAction::PutNode(
                StoredNode {
                    node_id: c.node_id,
                    fabric_index: c.fabric_index,
                    vendor_id: c.vendor_info->0.vendor_id,
                    product_id: c.vendor_info->0.product_id,
                    software_version: c.vendor_info->0.software_version,
                    last_operational_ipv6: c.operational_address,
                    last_seen_unix_ms: 0,
                    manufacturer: c.vendor_info->0.manufacturer,
                    model: c.vendor_info->0.model,
                },
            ),
        )),
        c.awaiting == Awaiting::NodeStored ==> commissioning_step(
            c,
            CommissioningEvent::NodeStored(Ok(())),
        ) == (CommissionerView { awaiting: Awaiting::Nothing, ..c }, Some(
            CommissioningAction::Done(Ok(c.node_id)),
        )),
{
}

/// An error the host reports for the awaited outcome ends the run at once,
/// in the stage it reached: a store, BLE, invoke or network-provider error
/// is passed on unchanged; a Matter-core error from opening an exchange or
/// CASE is passed on wrapped; any PASE failure is reported as `PaseFailed`.
pub proof fn law_host_errors_end_the_run(c: CommissionerView, e: ControllerError, m: Error)
    ensures
        c.awaiting == Awaiting::ScanResult ==> commissioning_step(
            c,
            CommissioningEvent::ScanCompleted(Err(e)),
        ) == (CommissionerView { awaiting: Awaiting::Nothing, ..c }, Some(
            CommissioningAction::Done(Err(e)),
        )),
        c.awaiting == Awaiting::Connection ==> commissioning_step(
            c,
            CommissioningEvent::Connected(Err(e)),
        ) == (CommissionerView { awaiting: Awaiting::Nothing, ..c }, Some(
            CommissioningAction::Done(Err(e)),
        )),
        c.awaiting == Awaiting::NodeId ==> commissioning_step(
            c,
            CommissioningEvent::NodeIdAllocated(Err(e)),
        ) == (CommissionerView { awaiting: Awaiting::Nothing, ..c }, Some(
            CommissioningAction::Done(Err(e)),
        )),
        c.awaiting == Awaiting::UnsecuredExchange ==> commissioning_step(
            c,
            CommissioningEvent::UnsecuredExchangeOpened(Err(m)),
        ) == (CommissionerView { awaiting: Awaiting::Nothing, ..c }, Some(
            CommissioningAction::Done(Err(ControllerError::Inner(m))),
        )),
        c.awaiting == Awaiting::PaseSession ==> commissioning_step(
            c,
            CommissioningEvent::PaseEstablished(Err(m)),
        ) == (CommissionerView { awaiting: Awaiting::Nothing, ..c }, Some(
            CommissioningAction::Done(Err(ControllerError::PaseFailed)),
        )),
        c.awaiting == Awaiting::FailSafe ==> commissioning_step(
            c,
            CommissioningEvent::CommandCompleted(Err(e)),
        ) == (CommissionerView { awaiting: Awaiting::Nothing, ..c }, Some(
            CommissioningAction::Done(Err(e)),
        )),
        c.awaiting == Awaiting::ThreadDataset ==> commissioning_step(
            c,
            CommissioningEvent::ThreadDatasetFetched(Err(e)),
        ) == (CommissionerView {
            awaiting: Awaiting::Nothing,
            stage: CommissioningStage::NetworkCommissioning,
            ..c
        }, Some(CommissioningAction::Done(Err(e)))),
        c.awaiting == Awaiting::CaseSession ==> commissioning_step(
            c,
            CommissioningEvent::CaseEstablished(Err(m)),
        ) == (CommissionerView { awaiting: Awaiting::Nothing, ..c }, Some(
            CommissioningAction::Done(Err(ControllerError::Inner(m))),
        )),
        c.awaiting == Awaiting::NodeStored ==> commissioning_step(
            c,
            CommissioningEvent::NodeStored(Err(e)),
        ) == (CommissionerView { awaiting: Awaiting::Nothing, ..c }, Some(
            CommissioningAction::Done(Err(e)),
        )),
{
}

/// The commissioner after answering each of `events` in turn.
pub open spec fn after_events(c: CommissionerView, events: Seq<CommissioningEvent>) -> CommissionerView
    decreases events.len(),
{
    if events.len() == 0 {
        c
    } else {
        commissioning_step(after_events(c, events.drop_last()), events.last()).0
    }
}

/// What a run's state keeps while the stages between PASE and CASE lack
/// their dependency.
spec fn run_in_progress(c: CommissionerView) -> bool {
    &&& run_well_formed(c)
    &&& c.stage != CommissioningStage::Idle
    &&& c.stage != CommissioningStage::Commissioned
    &&& c.awaiting != Awaiting::CaseSession
    &&& c.awaiting != Awaiting::NodeStored
}

proof fn lemma_run_in_progress(c: CommissionerView, events: Seq<CommissioningEvent>)
    requires
        run_in_progress(c),
    ensures
        run_in_progress(after_events(c, events)),
        events.len() > 0 ==> !(commissioning_step(
            after_events(c, events.drop_last()),
            events.last(),
        ).1 matches Some(CommissioningAction::Done(Ok(_)))),
    decreases events.len(),
{
    if events.len() > 0 {
        lemma_run_in_progress(c, events.drop_last());
    }
}

/// Once a run has started, [`Commissioner::progress`] is never `Idle`, and
/// whenever the run ends it has succeeded exactly when progress shows
/// `Commissioned`; a failed run shows the stage it failed in.
pub proof fn law_run_outcome_matches_progress(
    c: CommissionerView,
    code: Seq<char>,
    fabric_index: u8,
    peer: Address,
    on_network: bool,
    events: Seq<CommissioningEvent>,
)
    ensures
        ({
            let (s, first) = if on_network {
                start_on_network_step(c, code, fabric_index, peer)
            } else {
                start_with_code_step(c, code, fabric_index)
            };
            let end = after_events(s, events);
            &&& end.stage != CommissioningStage::Idle
            &&& (first matches CommissioningAction::Done(r) ==> (r is Ok <==> s.stage
                == CommissioningStage::Commissioned))
            &&& (events.len() > 0 ==> (commissioning_step(
                after_events(s, events.drop_last()),
                events.last(),
            ).1 matches Some(CommissioningAction::Done(r)) ==> (r is Ok <==> end.stage
                == CommissioningStage::Commissioned)))
        }),
{
    let (s, first) = if on_network {
        start_on_network_step(c, code, fabric_index, peer)
    } else {
        start_with_code_step(c, code, fabric_index)
    };
    assert(run_in_progress(s));
    lemma_run_in_progress(s, events);
    if events.len() > 0 {
        assert(after_events(s, events) == commissioning_step(
            after_events(s, events.drop_last()),
            events.last(),
        ).0);
    }
}

} // verus!
