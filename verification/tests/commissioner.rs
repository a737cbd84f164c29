use rs_matter_controller::ble::{accept_advert, DiscoveredBleDevice, DiscriminatorFilter};
use rs_matter_controller::commissioner::{
    locator_addr_bytes, Awaiting, CommandFieldValue, Commissioner, CommissioningAction, CommissioningCommand,
    CommissioningEvent, CommissioningStage,
};
use rs_matter_controller::error::{ControllerError, Error};
use rs_matter_controller::network::thread_dataset_from_tlvs;
use rs_matter_controller::operational::{Address, IpAddress, OperationalLocator, SocketAddress};

fn device(discriminator: u16) -> DiscoveredBleDevice {
    DiscoveredBleDevice { discriminator, vendor_id: 0xFFF1, product_id: 0x8000, addr: [7u8; 16] }
}

#[test]
fn new_commissioner_is_idle() {
    let c = Commissioner::new();
    assert_eq!(c.progress(), CommissioningStage::Idle);
    assert_eq!(c.awaiting(), Awaiting::Nothing);
    assert_eq!(Commissioner::default().progress(), CommissioningStage::Idle);
}

#[test]
fn unparsable_code_fails_while_parsing() {
    let mut c = Commissioner::new();
    match c.start_with_code("12345", 1) {
        CommissioningAction::Done(Err(e)) => assert_eq!(e, ControllerError::PaseFailed),
        other => panic!("unexpected {:?}", other),
    }
    assert_eq!(c.progress(), CommissioningStage::Parsing);
    assert_eq!(c.awaiting(), Awaiting::Nothing);
}

#[test]
fn qr_code_fails_while_parsing() {
    let mut c = Commissioner::new();
    match c.start_with_code("MT:Y.K9042C00KA0648G00", 1) {
        CommissioningAction::Done(Err(e)) => assert_eq!(e, ControllerError::PaseFailed),
        other => panic!("unexpected {:?}", other),
    }
    assert_eq!(c.progress(), CommissioningStage::Parsing);
}

#[test]
fn ble_run_scans_with_short_discriminator() {
    let mut c = Commissioner::new();
    match c.start_with_code("26318621095", 3) {
        CommissioningAction::Scan { discriminator, timeout_ms } => {
            assert_eq!(discriminator, Some(DiscriminatorFilter::Short(0x0B)));
            assert_eq!(timeout_ms, 10_000);
        }
        other => panic!("unexpected {:?}", other),
    }
    assert_eq!(c.progress(), CommissioningStage::Discovering);
    assert_eq!(c.awaiting(), Awaiting::ScanResult);
}

#[test]
fn empty_scan_means_ble_unavailable() {
    let mut c = Commissioner::new();
    c.start_with_code("00876800071", 1);
    let found: heapless::Vec<DiscoveredBleDevice, 8> = heapless::Vec::new();
    match c.on_event(CommissioningEvent::ScanCompleted(Ok(found))) {
        Some(CommissioningAction::Done(Err(e))) => assert_eq!(e, ControllerError::BleUnavailable),
        other => panic!("unexpected {:?}", other),
    }
    assert_eq!(c.progress(), CommissioningStage::Discovering);
}

#[test]
fn scan_error_ends_the_run() {
    let mut c = Commissioner::new();
    c.start_with_code("00876800071", 1);
    match c.on_event(CommissioningEvent::ScanCompleted(Err(ControllerError::BleUnavailable))) {
        Some(CommissioningAction::Done(Err(e))) => assert_eq!(e, ControllerError::BleUnavailable),
        other => panic!("unexpected {:?}", other),
    }
}

#[test]
fn ble_run_stops_in_pase_handshake() {
    let mut c = Commissioner::new();
    c.start_with_code("00876800071", 5);
    let mut found: heapless::Vec<DiscoveredBleDevice, 8> = heapless::Vec::new();
    found.push(device(0x0A0)).unwrap();
    found.push(device(0x0B0)).unwrap();
    match c.on_event(CommissioningEvent::ScanCompleted(Ok(found))) {
        Some(CommissioningAction::Connect(d)) => assert_eq!(d.discriminator, 0x0A0),
        other => panic!("unexpected {:?}", other),
    }
    assert_eq!(c.awaiting(), Awaiting::Connection);
    match c.on_event(CommissioningEvent::Connected(Ok(()))) {
        Some(CommissioningAction::AllocateNodeId { fabric_index }) => assert_eq!(fabric_index, 5),
        other => panic!("unexpected {:?}", other),
    }
    match c.on_event(CommissioningEvent::NodeIdAllocated(Ok(42))) {
        Some(CommissioningAction::Done(Err(e))) => assert_eq!(e, ControllerError::PaseFailed),
        other => panic!("unexpected {:?}", other),
    }
    assert_eq!(c.progress(), CommissioningStage::PaseHandshake);
    assert_eq!(c.awaiting(), Awaiting::Nothing);
}

#[test]
fn connect_and_allocation_errors_end_the_run() {
    let mut c = Commissioner::new();
    c.start_with_code("00876800071", 1);
    let mut found: heapless::Vec<DiscoveredBleDevice, 8> = heapless::Vec::new();
    found.push(device(0)).unwrap();
    c.on_event(CommissioningEvent::ScanCompleted(Ok(found)));
    match c.on_event(CommissioningEvent::Connected(Err(ControllerError::BleUnavailable))) {
        Some(CommissioningAction::Done(Err(e))) => assert_eq!(e, ControllerError::BleUnavailable),
        other => panic!("unexpected {:?}", other),
    }
    assert_eq!(c.progress(), CommissioningStage::Discovering);
}

#[test]
fn unexpected_events_are_ignored() {
    let mut c = Commissioner::new();
    assert!(c.on_event(CommissioningEvent::Connected(Ok(()))).is_none());
    c.start_with_code("00876800071", 1);
    assert!(c.on_event(CommissioningEvent::NodeStored(Ok(()))).is_none());
    assert!(c.on_event(CommissioningEvent::PaseEstablished(Ok(()))).is_none());
    assert_eq!(c.progress(), CommissioningStage::Discovering);
    assert_eq!(c.awaiting(), Awaiting::ScanResult);
}

fn peer() -> Address {
    Address::Udp(SocketAddress { ip: IpAddress::V4([192, 168, 1, 20]), port: 5540 })
}

#[test]
fn on_network_run_arms_fail_safe_then_stops() {
    let mut c = Commissioner::new();
    match c.start_on_network("0087-6800-071", 1, peer()) {
        CommissioningAction::OpenUnsecuredExchange(a) => assert_eq!(a, peer()),
        other => panic!("unexpected {:?}", other),
    }
    assert_eq!(c.progress(), CommissioningStage::PaseHandshake);
    match c.on_event(CommissioningEvent::UnsecuredExchangeOpened(Ok(()))) {
        Some(CommissioningAction::RunPase { passcode }) => assert_eq!(passcode, 123456),
        other => panic!("unexpected {:?}", other),
    }
    match c.on_event(CommissioningEvent::PaseEstablished(Ok(()))) {
        Some(CommissioningAction::Invoke(cmd)) => {
            match &cmd {
                CommissioningCommand::ArmFailSafe { expiry_seconds, breadcrumb } => {
                    assert_eq!(*expiry_seconds, 60);
                    assert_eq!(*breadcrumb, 0);
                }
                other => panic!("unexpected {:?}", other),
            }
            assert_eq!(cmd.path(), (0, 0x0030, 0x00));
        }
        other => panic!("unexpected {:?}", other),
    }
    assert_eq!(c.progress(), CommissioningStage::ArmFailSafe);
    match c.on_event(CommissioningEvent::CommandCompleted(Ok(()))) {
        Some(CommissioningAction::Done(Err(e))) => assert_eq!(e, ControllerError::PaseFailed),
        other => panic!("unexpected {:?}", other),
    }
}

#[test]
fn on_network_errors_are_mapped() {
    let mut c = Commissioner::new();
    c.start_on_network("00876800071", 1, peer());
    match c.on_event(CommissioningEvent::UnsecuredExchangeOpened(Err(Error { code: 7 }))) {
        Some(CommissioningAction::Done(Err(e))) => assert_eq!(e, ControllerError::Inner(Error { code: 7 })),
        other => panic!("unexpected {:?}", other),
    }
    c.start_on_network("00876800071", 1, peer());
    c.on_event(CommissioningEvent::UnsecuredExchangeOpened(Ok(())));
    match c.on_event(CommissioningEvent::PaseEstablished(Err(Error { code: 3 }))) {
        Some(CommissioningAction::Done(Err(e))) => assert_eq!(e, ControllerError::PaseFailed),
        other => panic!("unexpected {:?}", other),
    }
    assert_eq!(c.progress(), CommissioningStage::PaseHandshake);
    c.start_on_network("00876800071", 1, peer());
    c.on_event(CommissioningEvent::UnsecuredExchangeOpened(Ok(())));
    c.on_event(CommissioningEvent::PaseEstablished(Ok(())));
    match c.on_event(CommissioningEvent::CommandCompleted(Err(ControllerError::FailSafeExpired))) {
        Some(CommissioningAction::Done(Err(e))) => assert_eq!(e, ControllerError::FailSafeExpired),
        other => panic!("unexpected {:?}", other),
    }
}

#[test]
fn on_network_rejects_bad_code() {
    let mut c = Commissioner::new();
    match c.start_on_network("00876800072", 1, peer()) {
        CommissioningAction::Done(Err(e)) => assert_eq!(e, ControllerError::PaseFailed),
        other => panic!("unexpected {:?}", other),
    }
    assert_eq!(c.progress(), CommissioningStage::Parsing);
}

#[test]
fn commands_have_their_paths() {
    assert_eq!(
        CommissioningCommand::AddTrustedRootCertificate { rcac_tlv: vec![1, 2, 3] }.path(),
        (0, 0x003E, 0x0B)
    );
    assert_eq!(CommissioningCommand::CommissioningComplete.path(), (0, 0x0030, 0x04));
}

#[test]
fn locator_addresses_become_ipv6_bytes() {
    let v4 = OperationalLocator { node_id: 1, address: peer() };
    let mut expected = [0u8; 16];
    expected[10] = 0xff;
    expected[11] = 0xff;
    expected[12..].copy_from_slice(&[192, 168, 1, 20]);
    assert_eq!(locator_addr_bytes(&v4), expected);

    let v6_bytes = [0xfd, 0, 0, 0, 0, 0, 0, 0, 0, 0, 0, 0, 0, 0, 0, 1];
    let v6 = OperationalLocator {
        node_id: 1,
        address: Address::Tcp(SocketAddress { ip: IpAddress::V6(v6_bytes), port: 5540 }),
    };
    assert_eq!(locator_addr_bytes(&v6), v6_bytes);

    let btp = OperationalLocator { node_id: 1, address: Address::Btp([1, 2, 3, 4, 5, 6]) };
    assert_eq!(locator_addr_bytes(&btp), [0u8; 16]);
}

#[test]
fn thread_dataset_checks() {
    assert_eq!(thread_dataset_from_tlvs(&[]).err(), Some(ControllerError::NetworkCommissioningFailed));
    let big = [0u8; 257];
    assert_eq!(thread_dataset_from_tlvs(&big).err(), Some(ControllerError::NetworkCommissioningFailed));
    let full = [9u8; 256];
    assert_eq!(thread_dataset_from_tlvs(&full).unwrap().tlv.as_slice(), &full[..]);
    let d = thread_dataset_from_tlvs(&[0x0e, 0x08, 1, 2]).unwrap();
    assert_eq!(d.tlv.as_slice(), &[0x0e, 0x08, 1, 2]);
}

#[test]
fn command_fields_carry_the_request_content() {
    let f = CommissioningCommand::ArmFailSafe { expiry_seconds: 60, breadcrumb: 7 }.fields();
    assert_eq!(f.len(), 2);
    assert_eq!(f[0].tag, 0);
    assert!(matches!(f[0].value, CommandFieldValue::U16(60)));
    assert_eq!(f[1].tag, 1);
    assert!(matches!(f[1].value, CommandFieldValue::U64(7)));
    let f = CommissioningCommand::AddTrustedRootCertificate { rcac_tlv: vec![0x15, 0x30, 0x01] }.fields();
    assert_eq!(f.len(), 1);
    assert_eq!(f[0].tag, 0);
    match &f[0].value {
        CommandFieldValue::OctetString(v) => assert_eq!(v, &vec![0x15, 0x30, 0x01]),
        other => panic!("unexpected {:?}", other),
    }
    assert!(CommissioningCommand::CommissioningComplete.fields().is_empty());
}

#[test]
fn short_discriminator_scan_keeps_the_device_of_the_code() {
    // "26318621095" carries short discriminator 0xB; the device advertises
    // the full 0xBA0.
    let mut c = Commissioner::new();
    let want = match c.start_with_code("26318621095", 1) {
        CommissioningAction::Scan { discriminator, .. } => discriminator,
        other => panic!("unexpected {:?}", other),
    };
    let mut found: heapless::Vec<DiscoveredBleDevice, 8> = heapless::Vec::new();
    assert!(accept_advert(&mut found, want, device(0xBA0)));
    assert!(accept_advert(&mut found, want, device(0xCA0)));
    assert_eq!(found.len(), 1);
    assert_eq!(found[0].discriminator, 0xBA0);
}
