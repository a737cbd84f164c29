//! BLE discovery of commissionable Matter accessories (Matter Core Spec
//! §5.4.3.4 "BLE Service Discovery").
//!
//! Accessories waiting to be commissioned advertise service data under the
//! Matter service UUID `0xFFF6`. This module decodes that service data into
//! a [`DiscoveredBleDevice`] and decides which adverts a scan keeps. The
//! radio work (scanning, GATT connection, BTP) is done by the host's BLE
//! stack.

use vstd::prelude::*;

use crate::fixed::{found_devices, found_push};

verus! {

/// Matter Service UUID advertised by commissionable devices (spec §5.4.3.4).
pub const MATTER_SERVICE_UUID: u128 = 0x0000fff6_0000_1000_8000_00805f9b34fb;

/// C1 characteristic UUID — commissioner-to-accessory write (§5.4.3.6).
pub const BTP_C1_UUID: u128 = 0x18EE2EF5_263D_4559_959F_4F9C429F9D11;

/// C2 characteristic UUID — accessory-to-commissioner indicate (§5.4.3.6).
pub const BTP_C2_UUID: u128 = 0x18EE2EF5_263D_4559_959F_4F9C429F9D12;

/// Result of a BLE scan: a commissionable Matter device advertising on BLE.
#[derive(Debug, Clone, Copy)]
pub struct DiscoveredBleDevice {
    /// The 12-bit discriminator from the device's advertisement.
    pub discriminator: u16,
    /// 16-bit Vendor ID from the advertisement (0 if not present).
    pub vendor_id: u16,
    /// 16-bit Product ID from the advertisement (0 if not present).
    pub product_id: u16,
    /// Opaque address: the 6-byte Bluetooth device address, then one byte
    /// for its address type, then zeros. Used to connect to the device.
    pub addr: [u8; 16],
}

/// The kind of Bluetooth address a device advertises from.
#[derive(Debug, Clone, Copy, PartialEq, Eq)]
pub enum BleAddressType {
    /// Classic Bluetooth (BR/EDR) address.
    BrEdr,
    /// Bluetooth Low Energy public address.
    LePublic,
    /// Bluetooth Low Energy random address.
    LeRandom,
}

/// The little-endian 16-bit value of two bytes.
pub open spec fn le16(lo: u8, hi: u8) -> int {
    lo as int + hi as int * 256
}

/// The byte that records an address type in [`DiscoveredBleDevice::addr`].
pub open spec fn address_type_code(t: BleAddressType) -> u8 {
    match t {
        BleAddressType::LePublic => 0,
        BleAddressType::LeRandom => 1,
        BleAddressType::BrEdr => 0xff,
    }
}

/// The 16-byte opaque address: device address, type byte, then zeros.
pub open spec fn padded_address(bd_addr: Seq<u8>, kind: BleAddressType) -> Seq<u8> {
    bd_addr + seq![address_type_code(kind)] + Seq::new(9, |i: int| 0u8)
}

/// What a scan looks for: the full 12-bit discriminator, or only its top
/// 4 bits (the short discriminator a manual pairing code carries).
#[derive(Debug, Clone, Copy, PartialEq, Eq, Structural)]
pub enum DiscriminatorFilter {
    /// Match the low 12 bits of the advertised discriminator.
    Long(u16),
    /// Match the top 4 of the 12 advertised bits.
    Short(u16),
}

/// Whether an advertised discriminator passes the scan filter: a long
/// filter must agree with its low 12 bits, a short one with the top 4 of
/// those 12 bits; without a filter, every advert passes.
pub open spec fn passes_filter(want: Option<DiscriminatorFilter>, discriminator: u16) -> bool {
    match want {
        Some(DiscriminatorFilter::Long(w)) => discriminator as int % 4096 == w as int % 4096,
        Some(DiscriminatorFilter::Short(w)) => (discriminator as int % 4096) / 256 == w as int
            % 16,
        None => true,
    }
}

/// Decodes the Matter service data of an advert (spec §5.4.3.4). Service
/// data shorter than 7 bytes is not a Matter advert and gives `None`.
/// `bd_addr` and `kind` are the advertiser's address and address type.
pub fn parse_matter_service_data(data: &[u8], bd_addr: [u8; 6], kind: BleAddressType) -> (r: Option<DiscoveredBleDevice>)
    ensures
        data@.len() < 7 ==> r is None,
        data@.len() >= 7 ==> (r matches Some(d) && {
            &&& d.discriminator == le16(data@[1], data@[2]) % 4096
            &&& d.vendor_id == le16(data@[3], data@[4])
            &&& d.product_id == le16(data@[5], data@[6])
            &&& d.addr@ == padded_address(bd_addr@, kind)
        }),
{
    if data.len() < 7 {
        return None;
    }
    let raw_disc: u16 = data[1] as u16 + (data[2] as u16) * 256;
    let discriminator: u16 = raw_disc % 4096;
    let vendor_id: u16 = data[3] as u16 + (data[4] as u16) * 256;
    let product_id: u16 = data[5] as u16 + (data[6] as u16) * 256;

    let mut addr: [u8; 16] = [0u8; 16];
    let mut i: usize = 0;
    while i < 6
        invariant
            0 <= i <= 6,
            addr@.len() == 16,
            forall|j: int| 0 <= j < i ==> addr@[j] == bd_addr@[j],
            forall|j: int| 6 <= j < 16 ==> addr@[j] == 0u8,
        decreases 6 - i,
    {
        addr[i] = bd_addr[i];
        i = i + 1;
    }
    let code: u8 = match kind {
        BleAddressType::LePublic => 0,
        BleAddressType::LeRandom => 1,
        BleAddressType::BrEdr => 0xff,
    };
    addr[6] = code;
    assert(addr@ =~= padded_address(bd_addr@, kind));
    Some(DiscoveredBleDevice { discriminator, vendor_id, product_id, addr })
}

/// Whether an advert passes a scan's discriminator filter: a long filter
/// must agree with the low 12 bits of the advertised discriminator, a
/// short filter with the top 4 of those bits; without a filter, every
/// advert passes.
pub fn matches_discriminator(want: Option<DiscriminatorFilter>, device: &DiscoveredBleDevice) -> (r: bool)
    ensures
        r == passes_filter(want, device.discriminator),
{
    let d: u16 = device.discriminator;
    assert(d & 0x0fff == d % 4096) by (bit_vector);
    match want {
        Some(DiscriminatorFilter::Long(w)) => {
            assert(w & 0x0fff == w % 4096) by (bit_vector);
            (d & 0x0fff) == (w & 0x0fff)
        },
        Some(DiscriminatorFilter::Short(w)) => {
            assert((d & 0x0fff) >> 8 == (d % 4096) / 256) by (bit_vector);
            assert(w & 0x0f == w % 16) by (bit_vector);
            ((d & 0x0fff) >> 8) == (w & 0x0f)
        },
        None => true,
    }
}

/// What each filter keeps, bit by bit: a long filter `w` keeps exactly the
/// adverts whose 12-bit discriminator equals the low 12 bits of `w` (so two
/// discriminators that differ anywhere in those 12 bits are never both
/// kept); a short filter `w` keeps exactly those whose top 4 of 12 bits
/// equal the low 4 bits of `w`; no filter keeps every advert.
pub proof fn law_filter_bits(w: u16, d: u16)
    ensures
        passes_filter(Some(DiscriminatorFilter::Long(w)), d) <==> (d & 0x0fff) == (w & 0x0fff),
        passes_filter(Some(DiscriminatorFilter::Short(w)), d) <==> ((d & 0x0fff) >> 8) == (w
            & 0x0f),
        passes_filter(None, d),
{
    assert(d & 0x0fff == d % 4096) by (bit_vector);
    assert(w & 0x0fff == w % 4096) by (bit_vector);
    assert((d & 0x0fff) >> 8 == (d % 4096) / 256) by (bit_vector);
    assert(w & 0x0f == w % 16) by (bit_vector);
}

/// One step of a scan: an advert that passes the filter is added to
/// `found`. Returns whether scanning should go on, which is `false` only
/// when a passing advert no longer fits (the list holds at most 8).
pub fn accept_advert(
    found: &mut heapless::Vec<DiscoveredBleDevice, 8>,
    want: Option<DiscriminatorFilter>,
    device: DiscoveredBleDevice,
) -> (keep_scanning: bool)
    ensures
        !passes_filter(want, device.discriminator) ==> keep_scanning && found_devices(*final(found))
            == found_devices(*old(found)),
        passes_filter(want, device.discriminator) && found_devices(*old(found)).len() < 8
            ==> keep_scanning && found_devices(*final(found)) == found_devices(*old(found)).push(
            device,
        ),
        passes_filter(want, device.discriminator) && found_devices(*old(found)).len() >= 8
            ==> !keep_scanning && found_devices(*final(found)) == found_devices(*old(found)),
        found_devices(*old(found)).len() <= 8 ==> found_devices(*final(found)).len() <= 8,
{
    if matches_discriminator(want, &device) {
        match found_push(found, device) {
            Ok(()) => true,
            Err(_) => false,
        }
    } else {
        true
    }
}

} // verus!
