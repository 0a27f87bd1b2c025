use librp2040::control::{
    check_reset_result, endpoint_halted, halt_query, interface_reset_request, status_request,
};
use librp2040::status::decode_status;
use librp2040::{CommandStatusCode, ProtocolError};

fn status_buffer(token: u32, code: u32, cmd_id: u8, in_progress: u8) -> Vec<u8> {
    let mut buf: Vec<u8> = Vec::new();
    buf.extend_from_slice(&token.to_le_bytes());
    buf.extend_from_slice(&code.to_le_bytes());
    buf.push(cmd_id);
    buf.push(in_progress);
    buf.extend_from_slice(&[0; 6]);
    buf
}

#[test]
fn status_code_zero_decodes_to_success() {
    let status = decode_status(&status_buffer(7, 0, 0x03, 0)).unwrap();
    assert_eq!(status.status_code, CommandStatusCode::Success);
    assert_eq!(status.token, 7);
    assert_eq!(status.cmd_id, 0x03);
    assert_eq!(status.in_progress, 0);
}

#[test]
fn status_code_seven_decodes_to_rebooting() {
    let status = decode_status(&status_buffer(9, 7, 0x02, 1)).unwrap();
    assert_eq!(status.status_code, CommandStatusCode::Rebooting);
    assert_eq!(status.in_progress, 1);
}

#[test]
fn every_known_status_code_decodes() {
    let expected = [
        CommandStatusCode::Success,
        CommandStatusCode::UnknownCommand,
        CommandStatusCode::InvalidCommandLength,
        CommandStatusCode::InvalidTransferLength,
        CommandStatusCode::InvalidAddress,
        CommandStatusCode::BadAlignment,
        CommandStatusCode::InterleavedWrite,
        CommandStatusCode::Rebooting,
        CommandStatusCode::UnknownError,
    ];
    for (value, code) in expected.iter().enumerate() {
        let status = decode_status(&status_buffer(1, value as u32, 0, 0)).unwrap();
        assert_eq!(status.status_code, *code);
        assert_eq!(status.status_code.value(), value as u32);
    }
}

#[test]
fn unknown_status_code_is_a_protocol_error() {
    assert_eq!(
        decode_status(&status_buffer(1, 9, 0, 0)).unwrap_err(),
        ProtocolError::UnknownStatusCode
    );
    assert_eq!(
        decode_status(&status_buffer(1, 0xffff_ffff, 0, 0)).unwrap_err(),
        ProtocolError::UnknownStatusCode
    );
}

#[test]
fn short_status_buffer_is_rejected() {
    let buf: Vec<u8> = vec![0; 15];
    assert_eq!(
        decode_status(&buf).unwrap_err(),
        ProtocolError::InvalidStatusLength
    );
    let empty: Vec<u8> = Vec::new();
    assert_eq!(
        decode_status(&empty).unwrap_err(),
        ProtocolError::InvalidStatusLength
    );
}

#[test]
fn halt_query_layout() {
    let req = halt_query(0x83);
    assert_eq!(req.request_type, 0x82);
    assert_eq!(req.request, 0x00);
    assert_eq!(req.value, 0);
    assert_eq!(req.index, 0x83);
    assert_eq!(req.length, 2);
}

#[test]
fn halt_flag_is_bit_zero() {
    assert!(endpoint_halted(0x01));
    assert!(endpoint_halted(0xff));
    assert!(!endpoint_halted(0x00));
    assert!(!endpoint_halted(0xfe));
}

#[test]
fn interface_reset_layout_and_result() {
    let req = interface_reset_request(1);
    assert_eq!(req.request_type, 0x41);
    assert_eq!(req.request, 0x41);
    assert_eq!(req.value, 0);
    assert_eq!(req.index, 1);
    assert_eq!(req.length, 0);
    assert!(check_reset_result(0).is_ok());
    assert_eq!(
        check_reset_result(1).unwrap_err(),
        ProtocolError::UnexpectedResetData
    );
}

#[test]
fn status_request_layout() {
    let req = status_request(1);
    assert_eq!(req.request_type, 0xC1);
    assert_eq!(req.request, 0x42);
    assert_eq!(req.value, 0);
    assert_eq!(req.index, 1);
    assert_eq!(req.length, 16);
}
