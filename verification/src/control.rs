//! Control-channel operations: the endpoint-halt query, the bootloader
//! interface reset, and the status poll, as explicit control-transfer
//! request layouts plus the decisions taken on their results.

use vstd::prelude::*;

use crate::errors::ProtocolError;

verus! {

/// One control transfer for the caller to perform: the setup fields and,
/// for a device-to-host request, the number of bytes to request.
#[derive(Clone, Copy, Debug, PartialEq, Eq, Structural)]
pub struct ControlRequest {
    pub request_type: u8,
    pub request: u8,
    pub value: u16,
    pub index: u16,
    pub length: u16,
}

/// The standard device-to-host GET_STATUS request that reports whether the
/// bulk endpoint at `endpoint` is halted; two bytes come back.
pub fn halt_query(endpoint: u8) -> (r: ControlRequest)
    ensures
        r == (ControlRequest {
            request_type: 0x82,
            request: 0x00,
            value: 0,
            index: endpoint as u16,
            length: 2,
        }),
{
    ControlRequest { request_type: 0x82, request: 0x00, value: 0, index: endpoint as u16, length: 2 }
}

/// Whether the first byte of a GET_STATUS answer marks the endpoint halted.
pub fn endpoint_halted(status_byte: u8) -> (r: bool)
    ensures
        r == (status_byte & 1 == 1),
{
    status_byte & 1 == 1
}

/// The vendor host-to-device request, addressed to `iface`, that resets the
/// bootloader's command state; it carries no data stage.
pub fn interface_reset_request(iface: u8) -> (r: ControlRequest)
    ensures
        r == (ControlRequest {
            request_type: 0x41,
            request: 0x41,
            value: 0,
            index: iface as u16,
            length: 0,
        }),
{
    ControlRequest { request_type: 0x41, request: 0x41, value: 0, index: iface as u16, length: 0 }
}

/// Judges the byte count the reset request reported: any data stage on a
/// request declared zero-length is a protocol violation.
pub fn check_reset_result(transferred: usize) -> (r: Result<(), ProtocolError>)
    ensures
        r is Ok <==> transferred == 0,
        transferred != 0 ==> r == Err::<(), ProtocolError>(ProtocolError::UnexpectedResetData),
{
    if transferred > 0 {
        Err(ProtocolError::UnexpectedResetData)
    } else {
        Ok(())
    }
}

/// The vendor device-to-host request, addressed to `iface`, that polls the
/// 16-byte status of the most recent command.
pub fn status_request(iface: u8) -> (r: ControlRequest)
    ensures
        r == (ControlRequest {
            request_type: 0xC1,
            request: 0x42,
            value: 0,
            index: iface as u16,
            length: 16,
        }),
{
    ControlRequest { request_type: 0xC1, request: 0x42, value: 0, index: iface as u16, length: 16 }
}

} // verus!
