use librp2040::engine::{check_transfer_result, plan_exchange};
use librp2040::{
    CommandEngine, ExclusivityOption, PicobootCommand, ProtocolError, TokenCounter, TransferStep,
};

fn out_bytes(step: &TransferStep) -> &Vec<u8> {
    match step {
        TransferStep::BulkOut(v) => v,
        TransferStep::BulkIn(_) => panic!("expected an OUT step"),
    }
}

fn in_len(step: &TransferStep) -> u32 {
    match step {
        TransferStep::BulkIn(n) => *n,
        TransferStep::BulkOut(_) => panic!("expected an IN step"),
    }
}

#[test]
fn reboot_scenario() {
    let mut engine = CommandEngine::new();
    let steps = engine.reboot(0x2000_0000, 0x2004_0000, 5000);

    assert_eq!(steps.len(), 2);
    let packet = out_bytes(&steps[0]);
    let expected: Vec<u8> = vec![
        0x0b, 0xd1, 0x1f, 0x43, // magic
        0x01, 0x00, 0x00, 0x00, // first token drawn
        0x02, // command id
        0x0c, // declared argument size
        0x00, 0x00, // reserved
        0x00, 0x00, 0x00, 0x00, // transfer length
        0x00, 0x00, 0x00, 0x20, // program counter
        0x00, 0x00, 0x04, 0x20, // stack pointer
        0x88, 0x13, 0x00, 0x00, // delay in milliseconds
        0x00, 0x00, 0x00, 0x00, // padding
    ];
    assert_eq!(packet, &expected);
    assert_eq!(in_len(&steps[1]), 1);
}

#[test]
fn encode_decode_round_trip() {
    let mut counter = TokenCounter::new();
    let args: Vec<u8> = (0u8..16u8).collect();
    let cmd = PicobootCommand::new(&mut counter, 0x84, 0x08, 0x1000, args.clone());
    let encoded = cmd.encode();
    assert_eq!(encoded.len(), 32);
    let decoded = PicobootCommand::decode(&encoded).unwrap();
    assert_eq!(decoded.magic, cmd.magic);
    assert_eq!(decoded.token, cmd.token);
    assert_eq!(decoded.cmd_id, 0x84);
    assert_eq!(decoded.cmd_size, 0x08);
    assert_eq!(decoded.reserved, 0);
    assert_eq!(decoded.transfer_length, 0x1000);
    assert_eq!(decoded.args, args);
}

#[test]
fn decode_rejects_bad_length() {
    let buf: Vec<u8> = vec![0; 31];
    assert_eq!(
        PicobootCommand::decode(&buf).unwrap_err(),
        ProtocolError::InvalidPacketLength
    );
}

#[test]
fn decode_rejects_bad_magic() {
    let mut buf: Vec<u8> = vec![0; 32];
    buf[0] = 0x0b;
    buf[1] = 0xd1;
    buf[2] = 0x1f;
    buf[3] = 0x42; // last magic byte off by one
    assert_eq!(
        PicobootCommand::decode(&buf).unwrap_err(),
        ProtocolError::BadMagic
    );
}

#[test]
fn tokens_are_distinct_and_increasing() {
    let mut counter = TokenCounter::new();
    let mut args_template: Vec<u8> = vec![0; 16];
    args_template[0] = 1;
    let mut tokens: Vec<u32> = Vec::new();
    for _ in 0..100 {
        let cmd = PicobootCommand::new(&mut counter, 0x01, 0x01, 0, args_template.clone());
        tokens.push(cmd.token);
    }
    for i in 0..tokens.len() {
        assert!(tokens[i] >= 1);
        for j in 0..i {
            assert_ne!(tokens[i], tokens[j]);
        }
    }
    for w in tokens.windows(2) {
        assert!(w[0] < w[1]);
    }
}

#[test]
fn response_style_read_runs_in_then_out() {
    let mut engine = CommandEngine::new();
    let steps = engine.read(0x1000_0000, 0x100);
    assert_eq!(steps.len(), 3);
    let packet = out_bytes(&steps[0]);
    assert_eq!(packet[8], 0x84);
    assert_eq!(in_len(&steps[1]), 0x100); // data phase, device to host
    assert_eq!(out_bytes(&steps[2]), &vec![0u8]); // one-byte acknowledgement out
}

#[test]
fn read_of_zero_bytes_still_acknowledges() {
    let mut engine = CommandEngine::new();
    let steps = engine.read(0, 0);
    assert_eq!(steps.len(), 2);
    assert_eq!(out_bytes(&steps[1]), &vec![0u8]);
}

#[test]
fn request_style_write_runs_out_then_in() {
    let mut engine = CommandEngine::new();
    let data: Vec<u8> = vec![0xaa; 256];
    let steps = engine.write(0x1000_0000, 256, data.clone()).unwrap();
    assert_eq!(steps.len(), 3);
    let packet = out_bytes(&steps[0]);
    assert_eq!(packet[8], 0x05);
    assert_eq!(out_bytes(&steps[1]), &data); // data phase, host to device
    assert_eq!(in_len(&steps[2]), 1); // one-byte acknowledgement in
}

#[test]
fn flash_erase_accepts_aligned_pairs() {
    let mut engine = CommandEngine::new();
    let steps = engine.flash_erase(0x1000_0000, 0x2000).unwrap();
    assert_eq!(steps.len(), 2);
    let packet = out_bytes(&steps[0]);
    assert_eq!(packet[8], 0x03);
    assert_eq!(packet[9], 0x08);
    assert_eq!(&packet[16..20], &[0x00, 0x00, 0x00, 0x10]); // address
    assert_eq!(&packet[20..24], &[0x00, 0x20, 0x00, 0x00]); // size
    assert_eq!(in_len(&steps[1]), 1);
}

#[test]
fn flash_erase_rejects_misaligned_address() {
    let mut engine = CommandEngine::new();
    assert_eq!(
        engine.flash_erase(0x1000_0800, 0x1000).unwrap_err(),
        ProtocolError::Misaligned
    );
}

#[test]
fn flash_erase_rejects_misaligned_size() {
    let mut engine = CommandEngine::new();
    assert_eq!(
        engine.flash_erase(0x1000_0000, 100).unwrap_err(),
        ProtocolError::Misaligned
    );
}

#[test]
fn write_rejects_misaligned_arguments() {
    let mut engine = CommandEngine::new();
    assert_eq!(
        engine.write(0x1000_0001, 256, vec![0; 256]).unwrap_err(),
        ProtocolError::Misaligned
    );
    assert_eq!(
        engine.write(0x1000_0000, 100, vec![0; 100]).unwrap_err(),
        ProtocolError::Misaligned
    );
}

#[test]
fn write_rejects_buffer_length_mismatch() {
    let mut engine = CommandEngine::new();
    assert_eq!(
        engine.write(0x1000_0000, 256, vec![0; 255]).unwrap_err(),
        ProtocolError::LengthMismatch
    );
    assert_eq!(
        engine.write(0x1000_0000, 0, vec![0; 1]).unwrap_err(),
        ProtocolError::LengthMismatch
    );
}

#[test]
fn plan_exchange_requires_data_for_request_style_transfer() {
    let mut counter = TokenCounter::new();
    let cmd = PicobootCommand::new(&mut counter, 0x05, 0x08, 256, vec![0; 16]);
    assert_eq!(
        plan_exchange(cmd, None).unwrap_err(),
        ProtocolError::MissingData
    );
}

#[test]
fn exclusive_access_sends_the_option_byte() {
    for (option, byte) in [
        (ExclusivityOption::NOT_EXCLUSIVE, 0u8),
        (ExclusivityOption::EXCLUSIVE, 1u8),
        (ExclusivityOption::EXCLUSIVE_AND_EJECT, 2u8),
    ] {
        let mut engine = CommandEngine::new();
        let steps = engine.exclusive_access(option);
        assert_eq!(steps.len(), 2);
        let packet = out_bytes(&steps[0]);
        assert_eq!(packet[8], 0x01);
        assert_eq!(packet[9], 0x01);
        assert_eq!(packet[16], byte);
        assert!(packet[17..32].iter().all(|b| *b == 0));
        assert_eq!(in_len(&steps[1]), 1);
    }
}

#[test]
fn xip_commands_carry_no_arguments() {
    let mut engine = CommandEngine::new();
    let exit_steps = engine.exit_xip();
    let enter_steps = engine.enter_xip();
    let exit_packet = out_bytes(&exit_steps[0]);
    let enter_packet = out_bytes(&enter_steps[0]);
    assert_eq!(exit_packet[8], 0x06);
    assert_eq!(enter_packet[8], 0x07);
    assert_eq!(exit_packet[9], 0x00);
    assert!(exit_packet[16..32].iter().all(|b| *b == 0));
    assert_eq!(exit_steps.len(), 2);
    assert_eq!(enter_steps.len(), 2);
}

#[test]
fn exec_and_vectorized_flash_carry_one_address() {
    let mut engine = CommandEngine::new();
    let exec_steps = engine.exec(0x2000_0100);
    let packet = out_bytes(&exec_steps[0]);
    assert_eq!(packet[8], 0x08);
    assert_eq!(packet[9], 0x04);
    assert_eq!(&packet[16..20], &[0x00, 0x01, 0x00, 0x20]);
    assert!(packet[20..32].iter().all(|b| *b == 0));

    let vf_steps = engine.vectorized_flash(0x1000_0200);
    let vf_packet = out_bytes(&vf_steps[0]);
    assert_eq!(vf_packet[8], 0x09);
    assert_eq!(vf_packet[9], 0x04);
    assert_eq!(&vf_packet[16..20], &[0x00, 0x02, 0x00, 0x10]);
}

#[test]
fn zero_byte_transfer_is_fatal() {
    assert_eq!(
        check_transfer_result(0).unwrap_err(),
        ProtocolError::ZeroLengthTransfer
    );
    assert!(check_transfer_result(32).is_ok());
}
