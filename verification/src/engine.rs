//! The command protocol engine: per-command argument layout, validation
//! rules, and the three-phase bulk handshake.
//!
//! Every operation is planned as an explicit sequence of bulk transfer
//! steps. Phase one writes the 32-byte packet to the OUT endpoint; phase
//! two, present only for a nonzero transfer length, moves the payload in
//! the direction given by bit 0x80 of the command id; phase three exchanges
//! a single zero acknowledgement byte in the opposite direction, and is
//! never skipped. The caller carries the steps out in order against its USB
//! transport and must treat a zero-byte transfer result as fatal.

use vstd::prelude::*;

use crate::codec::{push_u32_le, push_zeros, u32_le, zeros};
use crate::errors::ProtocolError;
use crate::packet::{packet_bytes, PicobootCommand, TokenCounter, ARGS_LEN};

verus! {

/// One bulk transfer the caller must perform: either write the carried
/// bytes to the OUT endpoint, or read the given number of bytes from the
/// IN endpoint.
#[derive(Debug)]
pub enum TransferStep {
    BulkOut(Vec<u8>),
    BulkIn(u32),
}

/// `s` writes exactly `bytes` to the OUT endpoint.
pub open spec fn step_out(s: TransferStep, bytes: Seq<u8>) -> bool {
    s matches TransferStep::BulkOut(v) && v@ == bytes
}

/// `s` reads exactly `len` bytes from the IN endpoint.
pub open spec fn step_in(s: TransferStep, len: u32) -> bool {
    s matches TransferStep::BulkIn(l) && l == len
}

/// The complete handshake for a command whose encoded packet is `packet`.
///
/// The packet goes out first. A response-style command (`response_style`)
/// with a data phase then reads `transfer_length` bytes IN and acknowledges
/// with one zero byte OUT; a request-style command writes its `payload` OUT
/// and reads the one-byte acknowledgement IN. Without a data phase only the
/// acknowledgement follows, still in the direction opposite the one the
/// data phase would have taken.
pub open spec fn plan_shape(
    steps: Seq<TransferStep>,
    packet: Seq<u8>,
    response_style: bool,
    transfer_length: u32,
    payload: Seq<u8>,
) -> bool {
    if transfer_length == 0 {
        &&& steps.len() == 2
        &&& step_out(steps[0], packet)
        &&& if response_style {
            step_out(steps[1], seq![0u8])
        } else {
            step_in(steps[1], 1)
        }
    } else if response_style {
        &&& steps.len() == 3
        &&& step_out(steps[0], packet)
        &&& step_in(steps[1], transfer_length)
        &&& step_out(steps[2], seq![0u8])
    } else {
        &&& steps.len() == 3
        &&& step_out(steps[0], packet)
        &&& step_out(steps[1], payload)
        &&& step_in(steps[2], 1)
    }
}

/// Lays out the three handshake phases for `cmd`.
///
/// A request-style command that declares a data phase must come with a
/// buffer of exactly the declared transfer length; a missing or mis-sized
/// buffer fails here, before any transfer is planned, because the device
/// cannot signal a host-side packing bug itself.
pub fn plan_exchange(cmd: PicobootCommand, data: Option<Vec<u8>>) -> (r: Result<
    Vec<TransferStep>,
    ProtocolError,
>)
    requires
        cmd.wf(),
    ensures
        ({
            let response_style = cmd.cmd_id & 0x80 != 0;
            let needs_data = !response_style && cmd.transfer_length != 0;
            &&& (r is Ok <==> (!needs_data || (data matches Some(d) && d@.len()
                == cmd.transfer_length)))
            &&& (needs_data && data is None ==> r == Err::<Vec<TransferStep>, ProtocolError>(
                ProtocolError::MissingData,
            ))
            &&& (needs_data && (data matches Some(d) && d@.len() != cmd.transfer_length) ==> r
                == Err::<Vec<TransferStep>, ProtocolError>(ProtocolError::LengthMismatch))
            &&& (r matches Ok(steps) ==> plan_shape(
                steps@,
                cmd.spec_encode(),
                response_style,
                cmd.transfer_length,
                if needs_data {
                    data->Some_0@
                } else {
                    Seq::empty()
                },
            ))
        }),
{
    let response_style = cmd.cmd_id & 0x80 != 0;
    if !response_style && cmd.transfer_length != 0 {
        match &data {
            None => {
                return Err(ProtocolError::MissingData);
            },
            Some(d) => {
                if d.len() != cmd.transfer_length as usize {
                    return Err(ProtocolError::LengthMismatch);
                }
            },
        }
    }
    let packet = cmd.encode();
    let mut steps: Vec<TransferStep> = Vec::new();
    steps.push(TransferStep::BulkOut(packet));
    if cmd.transfer_length != 0 {
        if response_style {
            steps.push(TransferStep::BulkIn(cmd.transfer_length));
            steps.push(TransferStep::BulkOut(ack_byte()));
        } else {
            match data {
                Some(d) => {
                    steps.push(TransferStep::BulkOut(d));
                },
                None => {
                    assert(false);
                },
            }
            steps.push(TransferStep::BulkIn(1));
        }
    } else {
        if response_style {
            steps.push(TransferStep::BulkOut(ack_byte()));
        } else {
            steps.push(TransferStep::BulkIn(1));
        }
    }
    Ok(steps)
}

/// Direction bit of each command id: only the read command (0x84) is
/// response-style; every other command keeps bit 0x80 clear.
pub proof fn lemma_command_directions()
    by (bit_vector)
    ensures
        0x01u8 & 0x80 == 0,
        0x02u8 & 0x80 == 0,
        0x03u8 & 0x80 == 0,
        0x84u8 & 0x80 != 0,
        0x05u8 & 0x80 == 0,
        0x06u8 & 0x80 == 0,
        0x07u8 & 0x80 == 0,
        0x08u8 & 0x80 == 0,
        0x09u8 & 0x80 == 0,
{
}

/// The single zero byte that closes every handshake.
fn ack_byte() -> (r: Vec<u8>)
    ensures
        r@ == seq![0u8],
{
    let mut v: Vec<u8> = Vec::new();
    v.push(0);
    proof {
        assert(v@ =~= seq![0u8]);
    }
    v
}

/// Accepts the byte count a bulk transfer reported; a zero-byte result is
/// a fatal transport failure for the command in flight.
pub fn check_transfer_result(transferred: usize) -> (r: Result<(), ProtocolError>)
    ensures
        r is Ok <==> transferred != 0,
        transferred == 0 ==> r == Err::<(), ProtocolError>(ProtocolError::ZeroLengthTransfer),
{
    if transferred == 0 {
        Err(ProtocolError::ZeroLengthTransfer)
    } else {
        Ok(())
    }
}

/// The tristate exclusivity claim sent as the single argument byte of the
/// exclusive-access command.
#[allow(non_camel_case_types)]
#[derive(Clone, Copy, Debug, PartialEq, Eq, Structural)]
pub enum ExclusivityOption {
    NOT_EXCLUSIVE,
    EXCLUSIVE,
    EXCLUSIVE_AND_EJECT,
}

/// The argument byte carrying each exclusivity option.
pub open spec fn exclusivity_value(option: ExclusivityOption) -> u8 {
    match option {
        ExclusivityOption::NOT_EXCLUSIVE => 0,
        ExclusivityOption::EXCLUSIVE => 1,
        ExclusivityOption::EXCLUSIVE_AND_EJECT => 2,
    }
}

/// Argument block of the exclusive-access command: the option byte, zero
/// padded.
pub open spec fn exclusive_access_args(option: ExclusivityOption) -> Seq<u8> {
    seq![exclusivity_value(option)] + zeros(15)
}

/// Argument block of the reboot command: program counter, stack pointer,
/// and delay in milliseconds, each four bytes little-endian, zero padded.
pub open spec fn reboot_args(pc: u32, sp: u32, delay_ms: u32) -> Seq<u8> {
    u32_le(pc) + u32_le(sp) + u32_le(delay_ms) + zeros(4)
}

/// Argument block of the commands that take an address and a size, each
/// four bytes little-endian, zero padded.
pub open spec fn addr_size_args(addr: u32, size: u32) -> Seq<u8> {
    u32_le(addr) + u32_le(size) + zeros(8)
}

/// Argument block of the commands that take a single address, four bytes
/// little-endian, zero padded.
pub open spec fn addr_args(addr: u32) -> Seq<u8> {
    u32_le(addr) + zeros(12)
}

/// The command protocol engine: one operation per bootloader command, each
/// building a fresh packet around the engine's correlation-token counter
/// and planning the handshake for the caller's transport to carry out.
pub struct CommandEngine {
    pub tokens: TokenCounter,
}

impl CommandEngine {
    /// The engine is well formed when its token counter is: the log of
    /// issued correlation tokens is strictly increasing.
    pub open spec fn wf(self) -> bool {
        self.tokens.wf()
    }

    /// The engine can still draw a fresh correlation token.
    pub open spec fn can_issue(self) -> bool {
        self.tokens.value < u32::MAX
    }

    /// The token the next command will carry.
    pub open spec fn next_token(self) -> u32 {
        self.tokens.value
    }

    /// A fresh engine whose first command will carry token 1.
    pub fn new() -> (r: Self)
        ensures
            r.wf(),
            r.tokens.value == 1,
            r.tokens.issued@ == Seq::<u32>::empty(),
    {
        CommandEngine { tokens: TokenCounter::new() }
    }

    /// Claims or releases exclusive access to the device (command 0x01):
    /// the option byte as one-byte argument block, no data phase.
    pub fn exclusive_access(&mut self, option: ExclusivityOption) -> (r: Vec<TransferStep>)
        requires
            old(self).wf(),
            old(self).can_issue(),
        ensures
            final(self).wf(),
            final(self).tokens.value == old(self).tokens.value + 1,
            final(self).tokens.issued@ == old(self).tokens.issued@.push(old(self).next_token()),
            plan_shape(
                r@,
                packet_bytes(old(self).next_token(), 0x01, 0x01, 0, exclusive_access_args(option)),
                false,
                0,
                Seq::empty(),
            ),
    {
        let mut args: Vec<u8> = Vec::new();
        match option {
            ExclusivityOption::NOT_EXCLUSIVE => args.push(0),
            ExclusivityOption::EXCLUSIVE => args.push(1),
            ExclusivityOption::EXCLUSIVE_AND_EJECT => args.push(2),
        }
        push_zeros(&mut args, 15);
        proof {
            assert(args@ =~= exclusive_access_args(option));
        }
        let cmd = PicobootCommand::new(&mut self.tokens, 0x01, 0x01, 0, args);
        proof {
            lemma_command_directions();
        }
        unwrap_plan(plan_exchange(cmd, None))
    }

    /// Reboots the device (command 0x02), starting execution at `pc` with
    /// stack pointer `sp` after `delay_ms` milliseconds; no data phase.
    pub fn reboot(&mut self, pc: u32, sp: u32, delay_ms: u32) -> (r: Vec<TransferStep>)
        requires
            old(self).wf(),
            old(self).can_issue(),
        ensures
            final(self).wf(),
            final(self).tokens.value == old(self).tokens.value + 1,
            final(self).tokens.issued@ == old(self).tokens.issued@.push(old(self).next_token()),
            plan_shape(
                r@,
                packet_bytes(old(self).next_token(), 0x02, 0x0c, 0, reboot_args(pc, sp, delay_ms)),
                false,
                0,
                Seq::empty(),
            ),
    {
        let mut args: Vec<u8> = Vec::new();
        push_u32_le(&mut args, pc);
        push_u32_le(&mut args, sp);
        push_u32_le(&mut args, delay_ms);
        push_zeros(&mut args, 4);
        proof {
            assert(args@ =~= reboot_args(pc, sp, delay_ms));
        }
        let cmd = PicobootCommand::new(&mut self.tokens, 0x02, 0x0c, 0, args);
        proof {
            lemma_command_directions();
        }
        unwrap_plan(plan_exchange(cmd, None))
    }

    /// Erases flash (command 0x03). Both the address and the size must be
    /// multiples of 4096; a misaligned pair fails here, before any
    /// transfer is planned, and leaves the engine untouched.
    pub fn flash_erase(&mut self, addr: u32, size: u32) -> (r: Result<
        Vec<TransferStep>,
        ProtocolError,
    >)
        requires
            old(self).wf(),
            old(self).can_issue(),
        ensures
            final(self).wf(),
            r is Ok <==> (addr % 4096 == 0 && size % 4096 == 0),
            r is Err ==> *final(self) == *old(self) && r == Err::<Vec<TransferStep>, ProtocolError>(
                ProtocolError::Misaligned,
            ),
            r matches Ok(steps) ==> final(self).tokens.value == old(self).tokens.value + 1
                && final(self).tokens.issued@ == old(self).tokens.issued@.push(
                old(self).next_token(),
            ) && plan_shape(
                steps@,
                packet_bytes(old(self).next_token(), 0x03, 0x08, 0, addr_size_args(addr, size)),
                false,
                0,
                Seq::empty(),
            ),
    {
        if addr % 4096 != 0 || size % 4096 != 0 {
            return Err(ProtocolError::Misaligned);
        }
        let args = addr_size_arg_block(addr, size);
        let cmd = PicobootCommand::new(&mut self.tokens, 0x03, 0x08, 0, args);
        proof {
            lemma_command_directions();
        }
        Ok(unwrap_plan(plan_exchange(cmd, None)))
    }

    /// Reads `size` bytes of device memory at `addr` (command 0x84): a
    /// response-style command whose data phase moves `size` bytes from the
    /// device, followed by the one-byte acknowledgement to the device.
    pub fn read(&mut self, addr: u32, size: u32) -> (r: Vec<TransferStep>)
        requires
            old(self).wf(),
            old(self).can_issue(),
        ensures
            final(self).wf(),
            final(self).tokens.value == old(self).tokens.value + 1,
            final(self).tokens.issued@ == old(self).tokens.issued@.push(old(self).next_token()),
            plan_shape(
                r@,
                packet_bytes(old(self).next_token(), 0x84, 0x08, size, addr_size_args(addr, size)),
                true,
                size,
                Seq::empty(),
            ),
    {
        let args = addr_size_arg_block(addr, size);
        let cmd = PicobootCommand::new(&mut self.tokens, 0x84, 0x08, size, args);
        proof {
            lemma_command_directions();
        }
        unwrap_plan(plan_exchange(cmd, None))
    }

    /// Writes `data` to device memory at `addr` (command 0x05). The address
    /// and size must be multiples of 256 and the buffer exactly `size`
    /// bytes long; any violation fails here, before any transfer is
    /// planned, and leaves the engine untouched.
    pub fn write(&mut self, addr: u32, size: u32, data: Vec<u8>) -> (r: Result<
        Vec<TransferStep>,
        ProtocolError,
    >)
        requires
            old(self).wf(),
            old(self).can_issue(),
        ensures
            final(self).wf(),
            r is Ok <==> (addr % 256 == 0 && size % 256 == 0 && data@.len() == size),
            !(addr % 256 == 0 && size % 256 == 0) ==> r == Err::<Vec<TransferStep>, ProtocolError>(
                ProtocolError::Misaligned,
            ),
            (addr % 256 == 0 && size % 256 == 0 && data@.len() != size) ==> r == Err::<
                Vec<TransferStep>,
                ProtocolError,
            >(ProtocolError::LengthMismatch),
            r is Err ==> *final(self) == *old(self),
            r matches Ok(steps) ==> final(self).tokens.value == old(self).tokens.value + 1
                && final(self).tokens.issued@ == old(self).tokens.issued@.push(
                old(self).next_token(),
            ) && plan_shape(
                steps@,
                packet_bytes(old(self).next_token(), 0x05, 0x08, size, addr_size_args(addr, size)),
                false,
                size,
                data@,
            ),
    {
        if addr % 256 != 0 || size % 256 != 0 {
            return Err(ProtocolError::Misaligned);
        }
        if data.len() != size as usize {
            return Err(ProtocolError::LengthMismatch);
        }
        let args = addr_size_arg_block(addr, size);
        let cmd = PicobootCommand::new(&mut self.tokens, 0x05, 0x08, size, args);
        proof {
            lemma_command_directions();
        }
        Ok(unwrap_plan(plan_exchange(cmd, Some(data))))
    }

    /// Leaves execute-in-place mode (command 0x06): no arguments, no data
    /// phase.
    pub fn exit_xip(&mut self) -> (r: Vec<TransferStep>)
        requires
            old(self).wf(),
            old(self).can_issue(),
        ensures
            final(self).wf(),
            final(self).tokens.value == old(self).tokens.value + 1,
            final(self).tokens.issued@ == old(self).tokens.issued@.push(old(self).next_token()),
            plan_shape(
                r@,
                packet_bytes(old(self).next_token(), 0x06, 0x00, 0, zeros(16)),
                false,
                0,
                Seq::empty(),
            ),
    {
        let mut args: Vec<u8> = Vec::new();
        push_zeros(&mut args, 16);
        proof {
            assert(args@ =~= zeros(16));
        }
        let cmd = PicobootCommand::new(&mut self.tokens, 0x06, 0x00, 0, args);
        proof {
            lemma_command_directions();
        }
        unwrap_plan(plan_exchange(cmd, None))
    }

    /// Re-enters execute-in-place mode (command 0x07): no arguments, no
    /// data phase.
    pub fn enter_xip(&mut self) -> (r: Vec<TransferStep>)
        requires
            old(self).wf(),
            old(self).can_issue(),
        ensures
            final(self).wf(),
            final(self).tokens.value == old(self).tokens.value + 1,
            final(self).tokens.issued@ == old(self).tokens.issued@.push(old(self).next_token()),
            plan_shape(
                r@,
                packet_bytes(old(self).next_token(), 0x07, 0x00, 0, zeros(16)),
                false,
                0,
                Seq::empty(),
            ),
    {
        let mut args: Vec<u8> = Vec::new();
        push_zeros(&mut args, 16);
        proof {
            assert(args@ =~= zeros(16));
        }
        let cmd = PicobootCommand::new(&mut self.tokens, 0x07, 0x00, 0, args);
        proof {
            lemma_command_directions();
        }
        unwrap_plan(plan_exchange(cmd, None))
    }

    /// Starts execution at `addr` (command 0x08): the address as four-byte
    /// argument, no data phase.
    pub fn exec(&mut self, addr: u32) -> (r: Vec<TransferStep>)
        requires
            old(self).wf(),
            old(self).can_issue(),
        ensures
            final(self).wf(),
            final(self).tokens.value == old(self).tokens.value + 1,
            final(self).tokens.issued@ == old(self).tokens.issued@.push(old(self).next_token()),
            plan_shape(
                r@,
                packet_bytes(old(self).next_token(), 0x08, 0x04, 0, addr_args(addr)),
                false,
                0,
                Seq::empty(),
            ),
    {
        let args = addr_arg_block(addr);
        let cmd = PicobootCommand::new(&mut self.tokens, 0x08, 0x04, 0, args);
        proof {
            lemma_command_directions();
        }
        unwrap_plan(plan_exchange(cmd, None))
    }

    /// Points the flash vector at `addr` (command 0x09): the address as
    /// four-byte argument, no data phase.
    pub fn vectorized_flash(&mut self, addr: u32) -> (r: Vec<TransferStep>)
        requires
            old(self).wf(),
            old(self).can_issue(),
        ensures
            final(self).wf(),
            final(self).tokens.value == old(self).tokens.value + 1,
            final(self).tokens.issued@ == old(self).tokens.issued@.push(old(self).next_token()),
            plan_shape(
                r@,
                packet_bytes(old(self).next_token(), 0x09, 0x04, 0, addr_args(addr)),
                false,
                0,
                Seq::empty(),
            ),
    {
        let args = addr_arg_block(addr);
        let cmd = PicobootCommand::new(&mut self.tokens, 0x09, 0x04, 0, args);
        proof {
            lemma_command_directions();
        }
        unwrap_plan(plan_exchange(cmd, None))
    }
}

/// Builds the address-and-size argument block.
fn addr_size_arg_block(addr: u32, size: u32) -> (r: Vec<u8>)
    ensures
        r@ == addr_size_args(addr, size),
        r@.len() == ARGS_LEN,
{
    let mut args: Vec<u8> = Vec::new();
    push_u32_le(&mut args, addr);
    push_u32_le(&mut args, size);
    push_zeros(&mut args, 8);
    proof {
        assert(args@ =~= addr_size_args(addr, size));
    }
    args
}

/// Builds the single-address argument block.
fn addr_arg_block(addr: u32) -> (r: Vec<u8>)
    ensures
        r@ == addr_args(addr),
        r@.len() == ARGS_LEN,
{
    let mut args: Vec<u8> = Vec::new();
    push_u32_le(&mut args, addr);
    push_zeros(&mut args, 12);
    proof {
        assert(args@ =~= addr_args(addr));
    }
    args
}

/// Extracts the plan of an exchange that cannot have been rejected.
fn unwrap_plan(r: Result<Vec<TransferStep>, ProtocolError>) -> (steps: Vec<TransferStep>)
    requires
        r is Ok,
    ensures
        r matches Ok(s) && steps == s,
{
    match r {
        Ok(steps) => steps,
        Err(_) => {
            assert(false);
            Vec::new()
        },
    }
}

} // verus!
