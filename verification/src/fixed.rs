//! Fixed-capacity buffers from the `heapless` crate.
//!
//! The controller keeps a few bounded buffers (the dash-stripped pairing
//! code, a Thread dataset, the list of BLE adverts found by a scan). Their
//! contents are named here, and each method the logic calls is given a
//! contract over those names, as `heapless` 0.8 implements it.

use vstd::prelude::*;
use vstd::utf8::encode_utf8;

use crate::ble::DiscoveredBleDevice;

verus! {

/// `heapless::String<N>`: a UTF-8 string stored inline, at most `N` bytes.
#[verifier::external_type_specification]
#[verifier::external_body]
pub struct ExFixedString<const N: usize>(heapless::String<N>);

/// `heapless::Vec<T, N>`: a vector stored inline, at most `N` items.
#[verifier::external_type_specification]
#[verifier::external_body]
#[verifier::reject_recursive_types(T)]
pub struct ExFixedVec<T, const N: usize>(heapless::Vec<T, N>);

/// `<heapless::Vec<T, N> as Clone>::clone` clones item by item; what the
/// items' own `clone` gives back is not stated, so nothing is said of the
/// result.
pub assume_specification<T, const N: usize>[<heapless::Vec<T, N> as Clone>::clone](
    v: &heapless::Vec<T, N>,
) -> heapless::Vec<T, N> where T: Clone;

/// `<heapless::String<N> as Clone>::clone` copies the bytes: the clone
/// holds the same string.
pub assume_specification<const N: usize>[<heapless::String<N> as Clone>::clone](
    s: &heapless::String<N>,
) -> (r: heapless::String<N>)
    ensures
        r == *s,
;

/// The characters held by the 13-byte buffer into which a pairing code is
/// copied without its separators.
pub uninterp spec fn code_buffer_chars(buf: heapless::String<13>) -> Seq<char>;

/// The bytes held by a Thread dataset buffer.
pub uninterp spec fn dataset_bytes(buf: heapless::Vec<u8, 256>) -> Seq<u8>;

/// The adverts held by the list a BLE scan fills, in the order pushed.
pub uninterp spec fn found_devices(list: heapless::Vec<DiscoveredBleDevice, 8>) -> Seq<DiscoveredBleDevice>;

/// `heapless::String::<13>::new`: the buffer starts empty.
#[verifier::external_body]
pub(crate) fn code_buffer_new() -> (buf: heapless::String<13>)
    ensures
        code_buffer_chars(buf) == Seq::<char>::empty(),
{
    heapless::String::new()
}

/// `heapless::String::<13>::push`: the character is appended when the
/// UTF-8 encoding of the new contents fits in 13 bytes; otherwise the
/// buffer is left as it was and `Err(())` is returned.
#[verifier::external_body]
pub(crate) fn code_buffer_push(buf: &mut heapless::String<13>, c: char) -> (r: Result<(), ()>)
    ensures
        encode_utf8(code_buffer_chars(*old(buf)).push(c)).len() <= 13 ==> r is Ok
            && code_buffer_chars(*final(buf)) == code_buffer_chars(*old(buf)).push(c),
        encode_utf8(code_buffer_chars(*old(buf)).push(c)).len() > 13 ==> r is Err
            && code_buffer_chars(*final(buf)) == code_buffer_chars(*old(buf)),
{
    buf.push(c)
}

/// `heapless::String::<13>::as_str`: the contents as a string slice.
#[verifier::external_body]
pub(crate) fn code_buffer_as_str<'a>(buf: &'a heapless::String<13>) -> (s: &'a str)
    ensures
        s@ == code_buffer_chars(*buf),
{
    buf.as_str()
}

/// `heapless::Vec::<u8, 256>::new`: the buffer starts empty.
#[verifier::external_body]
pub(crate) fn dataset_new() -> (buf: heapless::Vec<u8, 256>)
    ensures
        dataset_bytes(buf) == Seq::<u8>::empty(),
{
    heapless::Vec::new()
}

/// `heapless::Vec::<u8, 256>::extend_from_slice`: when the old contents
/// and `other` together exceed 256 bytes nothing changes and `Err(())`
/// comes back; otherwise `other` is appended.
#[verifier::external_body]
pub(crate) fn dataset_extend(buf: &mut heapless::Vec<u8, 256>, other: &[u8]) -> (r: Result<(), ()>)
    ensures
        dataset_bytes(*old(buf)).len() + other@.len() <= 256 ==> r is Ok && dataset_bytes(
            *final(buf),
        ) == dataset_bytes(*old(buf)) + other@,
        dataset_bytes(*old(buf)).len() + other@.len() > 256 ==> r is Err && dataset_bytes(
            *final(buf),
        ) == dataset_bytes(*old(buf)),
{
    buf.extend_from_slice(other)
}

/// `heapless::Vec::<DiscoveredBleDevice, 8>::push`: the advert is appended
/// while fewer than 8 are held; otherwise nothing changes and the advert
/// is handed back in `Err`. The list never holds more than its capacity.
#[verifier::external_body]
pub(crate) fn found_push(list: &mut heapless::Vec<DiscoveredBleDevice, 8>, d: DiscoveredBleDevice) -> (r: Result<(), DiscoveredBleDevice>)
    ensures
        found_devices(*old(list)).len() < 8 ==> r is Ok && found_devices(*final(list))
            == found_devices(*old(list)).push(d),
        found_devices(*old(list)).len() >= 8 ==> r is Err
            && found_devices(*final(list)) == found_devices(*old(list)),
        found_devices(*final(list)).len() <= 8,
{
    list.push(d)
}

/// `<[DiscoveredBleDevice]>::first` on the scan list: the first advert,
/// if any.
#[verifier::external_body]
pub(crate) fn found_first(list: &heapless::Vec<DiscoveredBleDevice, 8>) -> (r: Option<&DiscoveredBleDevice>)
    ensures
        found_devices(*list).len() == 0 ==> r is None,
        found_devices(*list).len() > 0 ==> r == Some(&found_devices(*list)[0]),
{
    list.first()
}

} // verus!
