use rs_matter_controller::ble::{
    accept_advert, matches_discriminator, parse_matter_service_data, BleAddressType,
    DiscoveredBleDevice, DiscriminatorFilter, MATTER_SERVICE_UUID,
};
use rs_matter_controller::error::{ControllerError, Error};
use rs_matter_controller::network::{otbr_object_path, otbr_service_name};
use rs_matter_controller::operational::{FabricIndex, OperationalClient};
use rs_matter_controller::Controller;

#[test]
fn service_data_is_decoded() {
    // op_code, discriminator 0x0F00 | extra high bits (le), vid 0xFFF1, pid 0x8001
    let data = [0x00, 0x00, 0xFF, 0xF1, 0xFF, 0x01, 0x80, 0x00];
    let d = parse_matter_service_data(&data, [1, 2, 3, 4, 5, 6], BleAddressType::LeRandom).unwrap();
    assert_eq!(d.discriminator, 0x0F00);
    assert_eq!(d.vendor_id, 0xFFF1);
    assert_eq!(d.product_id, 0x8001);
    assert_eq!(d.addr, [1, 2, 3, 4, 5, 6, 1, 0, 0, 0, 0, 0, 0, 0, 0, 0]);
    let d = parse_matter_service_data(&data[..7], [9; 6], BleAddressType::LePublic).unwrap();
    assert_eq!(d.addr[6], 0);
    let d = parse_matter_service_data(&data, [9; 6], BleAddressType::BrEdr).unwrap();
    assert_eq!(d.addr[6], 0xff);
    assert!(parse_matter_service_data(&data[..6], [9; 6], BleAddressType::LePublic).is_none());
}

fn dev(discriminator: u16) -> DiscoveredBleDevice {
    DiscoveredBleDevice { discriminator, vendor_id: 0, product_id: 0, addr: [0; 16] }
}

#[test]
fn long_filter_compares_twelve_bits() {
    assert!(matches_discriminator(None, &dev(0x123)));
    assert!(matches_discriminator(Some(DiscriminatorFilter::Long(0x123)), &dev(0x123)));
    assert!(matches_discriminator(Some(DiscriminatorFilter::Long(0xF123)), &dev(0x123)));
    assert!(!matches_discriminator(Some(DiscriminatorFilter::Long(0x124)), &dev(0x123)));
}

#[test]
fn short_filter_compares_top_four_bits() {
    assert!(matches_discriminator(Some(DiscriminatorFilter::Short(0xB)), &dev(0xBA0)));
    assert!(matches_discriminator(Some(DiscriminatorFilter::Short(0xB)), &dev(0xB00)));
    assert!(matches_discriminator(Some(DiscriminatorFilter::Short(0xB)), &dev(0xBFF)));
    assert!(!matches_discriminator(Some(DiscriminatorFilter::Short(0xB)), &dev(0xAFF)));
    assert!(!matches_discriminator(Some(DiscriminatorFilter::Short(0xB)), &dev(0x00B)));
}

#[test]
fn scan_keeps_at_most_eight_matching_adverts() {
    let want = Some(DiscriminatorFilter::Long(0x10));
    let mut found: heapless::Vec<DiscoveredBleDevice, 8> = heapless::Vec::new();
    assert!(accept_advert(&mut found, want, dev(0x11)));
    assert_eq!(found.len(), 0);
    for _ in 0..8 {
        assert!(accept_advert(&mut found, want, dev(0x10)));
    }
    assert_eq!(found.len(), 8);
    assert!(!accept_advert(&mut found, want, dev(0x10)));
    assert_eq!(found.len(), 8);
    assert!(accept_advert(&mut found, want, dev(0x20)));
}

#[test]
fn matter_service_uuid() {
    assert_eq!(MATTER_SERVICE_UUID >> 96, 0x0000fff6);
}

#[test]
fn error_messages() {
    assert_eq!(ControllerError::BleUnavailable.message(), "BLE adapter not configured");
    assert_eq!(ControllerError::NodeNotCommissioned.message(), "node not commissioned on this fabric");
    assert_eq!(
        ControllerError::Inner(Error { code: 1207 }).message(),
        "matter: Error { code: 1207 }"
    );
    assert_eq!(ControllerError::Inner(Error { code: 0 }).message(), "matter: Error { code: 0 }");
    assert_eq!(
        ControllerError::from(Error { code: 5 }),
        ControllerError::Inner(Error { code: 5 })
    );
}

#[test]
fn otbr_names() {
    assert_eq!(otbr_service_name("wpan0"), "io.openthread.BorderRouter.wpan0");
    assert_eq!(otbr_object_path("wpan1"), "/io/openthread/BorderRouter/wpan1");
}

#[test]
fn operational_client_binds_fabric() {
    let runtime = 17u32;
    let crypto = "crypto";
    let fabric = FabricIndex::new(3).unwrap();
    let client = OperationalClient::new(&runtime, &crypto, fabric);
    assert_eq!(client.fabric_idx().get(), 3);
    assert_eq!(*client.matter(), 17);
    assert!(FabricIndex::new(0).is_none());
}

#[test]
fn controller_constructs() {
    let _c = Controller::new();
    let _d = Controller::default();
}

#[test]
fn inner_error_text_is_its_debug_form() {
    let e = Error { code: 42 };
    assert_eq!(
        ControllerError::Inner(e).message(),
        format!("matter: {:?}", e)
    );
}
