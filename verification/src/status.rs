//! The fixed 16-byte command status structure and its closed status-code
//! enumeration.

use vstd::prelude::*;

use crate::codec::{read_u32_le, u32_from_le};
use crate::errors::ProtocolError;

verus! {

/// Length of an encoded command status in bytes.
pub const STATUS_LEN: usize = 16;

/// The closed enumeration of status codes the device may report.
///
/// `Success` is the device's all-clear; every other variant names the
/// firmware's reason for rejecting or aborting the reported command.
#[derive(Clone, Copy, Debug, PartialEq, Eq, Structural)]
pub enum CommandStatusCode {
    Success,
    UnknownCommand,
    InvalidCommandLength,
    InvalidTransferLength,
    InvalidAddress,
    BadAlignment,
    InterleavedWrite,
    Rebooting,
    UnknownError,
}

/// The wire value of each status code.
pub open spec fn status_code_value(c: CommandStatusCode) -> u32 {
    match c {
        CommandStatusCode::Success => 0,
        CommandStatusCode::UnknownCommand => 1,
        CommandStatusCode::InvalidCommandLength => 2,
        CommandStatusCode::InvalidTransferLength => 3,
        CommandStatusCode::InvalidAddress => 4,
        CommandStatusCode::BadAlignment => 5,
        CommandStatusCode::InterleavedWrite => 6,
        CommandStatusCode::Rebooting => 7,
        CommandStatusCode::UnknownError => 8,
    }
}

impl CommandStatusCode {
    /// Maps a wire value back into the enumeration; a value outside the
    /// closed range is itself a protocol error, never a silent default.
    pub fn from_u32(x: u32) -> (r: Result<Self, ProtocolError>)
        ensures
            r is Ok <==> x <= 8,
            r matches Ok(c) ==> status_code_value(c) == x,
            x > 8 ==> r == Err::<Self, ProtocolError>(ProtocolError::UnknownStatusCode),
    {
        match x {
            0 => Ok(CommandStatusCode::Success),
            1 => Ok(CommandStatusCode::UnknownCommand),
            2 => Ok(CommandStatusCode::InvalidCommandLength),
            3 => Ok(CommandStatusCode::InvalidTransferLength),
            4 => Ok(CommandStatusCode::InvalidAddress),
            5 => Ok(CommandStatusCode::BadAlignment),
            6 => Ok(CommandStatusCode::InterleavedWrite),
            7 => Ok(CommandStatusCode::Rebooting),
            8 => Ok(CommandStatusCode::UnknownError),
            _ => Err(ProtocolError::UnknownStatusCode),
        }
    }

    /// The code's wire value.
    pub fn value(&self) -> (r: u32)
        ensures
            r == status_code_value(*self),
    {
        match self {
            CommandStatusCode::Success => 0,
            CommandStatusCode::UnknownCommand => 1,
            CommandStatusCode::InvalidCommandLength => 2,
            CommandStatusCode::InvalidTransferLength => 3,
            CommandStatusCode::InvalidAddress => 4,
            CommandStatusCode::BadAlignment => 5,
            CommandStatusCode::InterleavedWrite => 6,
            CommandStatusCode::Rebooting => 7,
            CommandStatusCode::UnknownError => 8,
        }
    }
}

/// A decoded command status: the token of the command being reported on,
/// the device's status code, the command id, and the in-progress flag.
/// The six reserved tail bytes of the wire form carry no information and
/// are dropped on decode.
#[derive(Clone, Copy, Debug)]
pub struct CommandStatus {
    pub token: u32,
    pub status_code: CommandStatusCode,
    pub cmd_id: u8,
    pub in_progress: u8,
}

/// Decodes a 16-byte status buffer: token and status code little-endian at
/// offsets 0 and 4, command id at 8, in-progress flag at 9.
///
/// A buffer of any other length (a zero-byte control-transfer result
/// included) and a status code outside the closed enumeration are rejected.
pub fn decode_status(buf: &Vec<u8>) -> (r: Result<CommandStatus, ProtocolError>)
    ensures
        buf@.len() != STATUS_LEN ==> r == Err::<CommandStatus, ProtocolError>(
            ProtocolError::InvalidStatusLength,
        ),
        buf@.len() == STATUS_LEN ==> {
            let code = u32_from_le(buf@[4], buf@[5], buf@[6], buf@[7]);
            &&& (r is Ok <==> code <= 8)
            &&& (code > 8 ==> r == Err::<CommandStatus, ProtocolError>(
                ProtocolError::UnknownStatusCode,
            ))
            &&& (r matches Ok(s) ==> {
                &&& s.token == u32_from_le(buf@[0], buf@[1], buf@[2], buf@[3])
                &&& status_code_value(s.status_code) == code
                &&& s.cmd_id == buf@[8]
                &&& s.in_progress == buf@[9]
            })
        },
{
    if buf.len() != STATUS_LEN {
        return Err(ProtocolError::InvalidStatusLength);
    }
    let token = read_u32_le(buf, 0);
    let code = read_u32_le(buf, 4);
    let status_code = match CommandStatusCode::from_u32(code) {
        Ok(c) => c,
        Err(e) => {
            return Err(e);
        },
    };
    Ok(CommandStatus { token, status_code, cmd_id: buf[8], in_progress: buf[9] })
}

} // verus!
