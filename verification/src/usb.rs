//! The trusted surface towards the USB transport: the opaque carrier of
//! the open rusb handle and the two control-transfer wrappers. Every item
//! here is believed, not proved; each doc comment names what it relies on.

use vstd::prelude::*;

verus! {

/// Declares rusb's error enum so that transport failures can be carried
/// through this crate's own error type unchanged.
#[verifier::external_type_specification]
#[verifier::external_body]
pub struct ExUsbError(rusb::Error);

/// Owns the open transport channel of one device. The handle type of
/// rusb cannot be declared to the verifier (its context trait stays
/// outside), so the handle lives behind this opaque struct and only the
/// two wrappers below touch it. The field is public so that the
/// unverified caller that enumerated and opened the device can hand the
/// handle in.
#[verifier::external_body]
pub struct UsbPort {
    pub handle: rusb::DeviceHandle<rusb::GlobalContext>,
}

/// Relies on rusb's `DeviceHandle::read_control`: it blocks up to the
/// timeout, and on success returns how many bytes it read into the buffer,
/// never more than the buffer holds. What those bytes are depends on the
/// device, so nothing is stated of them.
#[verifier::external_body]
pub(crate) fn usb_read_control(
    port: &UsbPort,
    request_type: u8,
    request: u8,
    value: u16,
    index: u16,
    data: &mut Vec<u8>,
    timeout_ms: u64,
) -> (r: Result<usize, rusb::Error>)
    ensures
        final(data)@.len() == old(data)@.len(),
        r matches Ok(n) ==> n <= old(data)@.len(),
{
    port.handle.read_control(
        request_type,
        request,
        value,
        index,
        data.as_mut_slice(),
        std::time::Duration::from_millis(timeout_ms),
    )
}

/// Relies on rusb's `DeviceHandle::write_control`: it blocks up to the
/// timeout, and on success returns how many bytes of the buffer it
/// transferred, never more than the buffer holds.
#[verifier::external_body]
pub(crate) fn usb_write_control(
    port: &UsbPort,
    request_type: u8,
    request: u8,
    value: u16,
    index: u16,
    data: &Vec<u8>,
    timeout_ms: u64,
) -> (r: Result<usize, rusb::Error>)
    ensures
        r matches Ok(n) ==> n <= data@.len(),
{
    port.handle.write_control(
        request_type,
        request,
        value,
        index,
        data.as_slice(),
        std::time::Duration::from_millis(timeout_ms),
    )
}

} // verus!
