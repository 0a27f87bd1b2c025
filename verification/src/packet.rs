//! The fixed 32-byte command packet and the correlation-token counter.

use vstd::prelude::*;

use crate::codec::{
    lemma_u16_le_round_trip, lemma_u32_le_round_trip, push_u16_le, push_u32_le, read_u16_le,
    read_u32_le, u16_from_le, u16_le, u32_from_le, u32_le,
};
use crate::errors::ProtocolError;

verus! {

/// Magic constant opening every command packet, little-endian on the wire.
pub const PACKET_MAGIC: u32 = 0x431f_d10b;

/// Length of an encoded command packet in bytes.
pub const PACKET_LEN: usize = 32;

/// Length of the zero-padded argument block in bytes.
pub const ARGS_LEN: usize = 16;

/// The monotonically increasing correlation-token source.
///
/// Every packet draws the counter's current value and advances it by one;
/// the ghost log `issued` records every token ever handed out, in order.
/// The counter starts at 1; 32-bit exhaustion is out of scope and ruled
/// out by precondition.
pub struct TokenCounter {
    pub value: u32,
    pub issued: Ghost<Seq<u32>>,
}

impl TokenCounter {
    /// Every token handed out so far is strictly smaller than the next one
    /// to come, and the log grows strictly: later draws carry larger
    /// tokens.
    pub open spec fn wf(self) -> bool {
        &&& forall|i: int, j: int|
            0 <= i < j < self.issued@.len() ==> self.issued@[i] < self.issued@[j]
        &&& forall|i: int| 0 <= i < self.issued@.len() ==> self.issued@[i] < self.value
    }

    /// A fresh counter, ready to issue token 1 first.
    pub fn new() -> (r: Self)
        ensures
            r.wf(),
            r.value == 1,
            r.issued@ == Seq::<u32>::empty(),
    {
        TokenCounter { value: 1, issued: Ghost(Seq::empty()) }
    }

    /// Draws the current token, logs it, and advances the counter.
    pub fn next(&mut self) -> (t: u32)
        requires
            old(self).wf(),
            old(self).value < u32::MAX,
        ensures
            final(self).wf(),
            t == old(self).value,
            final(self).value == old(self).value + 1,
            final(self).issued@ == old(self).issued@.push(t),
    {
        let t = self.value;
        self.value = self.value + 1;
        proof {
            self.issued@ = self.issued@.push(t);
        }
        t
    }
}

/// No two packets built from one counter ever carry the same correlation
/// token, and no token falls below the first one issued: the log of a
/// well-formed counter is strictly increasing.
pub proof fn lemma_issued_tokens_distinct(c: TokenCounter, i: int, j: int)
    requires
        c.wf(),
        0 <= i < c.issued@.len(),
        0 <= j < c.issued@.len(),
        i != j,
    ensures
        c.issued@[i] != c.issued@[j],
        c.issued@[0] <= c.issued@[i],
{
}

/// A bootloader command packet: fixed header fields plus the 16-byte
/// zero-padded argument block.
#[derive(Debug)]
pub struct PicobootCommand {
    pub magic: u32,
    pub token: u32,
    pub cmd_id: u8,
    pub cmd_size: u8,
    pub reserved: u16,
    pub transfer_length: u32,
    pub args: Vec<u8>,
}

/// The encoded form of a packet with the given fields: magic, token,
/// command id, declared argument size, two reserved zero bytes, transfer
/// length, then the argument block, all multi-byte fields little-endian.
pub open spec fn packet_bytes(
    token: u32,
    cmd_id: u8,
    cmd_size: u8,
    transfer_length: u32,
    args: Seq<u8>,
) -> Seq<u8> {
    u32_le(PACKET_MAGIC) + u32_le(token) + seq![cmd_id, cmd_size] + u16_le(0)
        + u32_le(transfer_length) + args
}

impl PicobootCommand {
    /// A well-formed packet carries the protocol magic, zero reserved bytes,
    /// and a full-size argument block.
    pub open spec fn wf(self) -> bool {
        &&& self.magic == PACKET_MAGIC
        &&& self.reserved == 0
        &&& self.args@.len() == ARGS_LEN
    }

    /// The packet's wire form.
    pub open spec fn spec_encode(self) -> Seq<u8> {
        u32_le(self.magic) + u32_le(self.token) + seq![self.cmd_id, self.cmd_size]
            + u16_le(self.reserved) + u32_le(self.transfer_length) + self.args@
    }

    /// Builds a packet around the next correlation token of `counter`.
    pub fn new(
        counter: &mut TokenCounter,
        cmd_id: u8,
        cmd_size: u8,
        transfer_length: u32,
        args: Vec<u8>,
    ) -> (r: Self)
        requires
            old(counter).wf(),
            old(counter).value < u32::MAX,
            args@.len() == ARGS_LEN,
        ensures
            r.wf(),
            r.token == old(counter).value,
            r.cmd_id == cmd_id,
            r.cmd_size == cmd_size,
            r.transfer_length == transfer_length,
            r.args@ == args@,
            final(counter).wf(),
            final(counter).value == old(counter).value + 1,
            final(counter).issued@ == old(counter).issued@.push(r.token),
    {
        let token = counter.next();
        PicobootCommand { magic: PACKET_MAGIC, token, cmd_id, cmd_size, reserved: 0, transfer_length, args }
    }

    /// Serializes the packet into its 32-byte wire form.
    pub fn encode(&self) -> (r: Vec<u8>)
        requires
            self.wf(),
        ensures
            r@ == self.spec_encode(),
            r@ == packet_bytes(
                self.token,
                self.cmd_id,
                self.cmd_size,
                self.transfer_length,
                self.args@,
            ),
            r@.len() == PACKET_LEN,
    {
        let mut out: Vec<u8> = Vec::new();
        push_u32_le(&mut out, self.magic);
        push_u32_le(&mut out, self.token);
        out.push(self.cmd_id);
        out.push(self.cmd_size);
        push_u16_le(&mut out, self.reserved);
        push_u32_le(&mut out, self.transfer_length);
        let mut i: usize = 0;
        let ghost prefix: Seq<u8> = out@;
        while i < self.args.len()
            invariant
                i <= self.args@.len(),
                out@ == prefix + self.args@.take(i as int),
            decreases self.args@.len() - i,
        {
            out.push(self.args[i]);
            proof {
                assert(prefix + self.args@.take(i + 1) =~= (prefix + self.args@.take(
                    i as int,
                )).push(self.args@[i as int]));
            }
            i += 1;
        }
        proof {
            assert(self.args@.take(self.args@.len() as int) =~= self.args@);
            assert(out@ =~= self.spec_encode());
        }
        out
    }

    /// Deserializes a 32-byte buffer back into a packet.
    ///
    /// Fails on a buffer of any other length and on a buffer that does not
    /// open with the protocol magic; otherwise every header field and the
    /// argument block are read back exactly as `spec_encode` laid them out.
    pub fn decode(buf: &Vec<u8>) -> (r: Result<Self, ProtocolError>)
        ensures
            r is Ok <==> (buf@.len() == PACKET_LEN && u32_from_le(
                buf@[0],
                buf@[1],
                buf@[2],
                buf@[3],
            ) == PACKET_MAGIC),
            buf@.len() != PACKET_LEN ==> r == Err::<Self, ProtocolError>(
                ProtocolError::InvalidPacketLength,
            ),
            r is Err ==> (r == Err::<Self, ProtocolError>(ProtocolError::InvalidPacketLength)
                || r == Err::<Self, ProtocolError>(ProtocolError::BadMagic)),
            r matches Ok(p) ==> {
                &&& p.magic == PACKET_MAGIC
                &&& p.token == u32_from_le(buf@[4], buf@[5], buf@[6], buf@[7])
                &&& p.cmd_id == buf@[8]
                &&& p.cmd_size == buf@[9]
                &&& p.reserved == u16_from_le(buf@[10], buf@[11])
                &&& p.transfer_length == u32_from_le(buf@[12], buf@[13], buf@[14], buf@[15])
                &&& p.args@ == buf@.subrange(16, 32)
            },
    {
        if buf.len() != PACKET_LEN {
            return Err(ProtocolError::InvalidPacketLength);
        }
        let magic = read_u32_le(buf, 0);
        if magic != PACKET_MAGIC {
            return Err(ProtocolError::BadMagic);
        }
        let token = read_u32_le(buf, 4);
        let cmd_id = buf[8];
        let cmd_size = buf[9];
        let reserved = read_u16_le(buf, 10);
        let transfer_length = read_u32_le(buf, 12);
        let mut args: Vec<u8> = Vec::new();
        let mut i: usize = 16;
        while i < 32
            invariant
                16 <= i <= 32,
                buf@.len() == 32,
                args@ == buf@.subrange(16, i as int),
            decreases 32 - i,
        {
            args.push(buf[i]);
            proof {
                assert(buf@.subrange(16, i + 1) =~= buf@.subrange(16, i as int).push(
                    buf@[i as int],
                ));
            }
            i += 1;
        }
        Ok(PicobootCommand { magic, token, cmd_id, cmd_size, reserved, transfer_length, args })
    }
}

/// Round trip: the wire form of any well-formed packet reads back, field by
/// field, to exactly the packet it was encoded from — same token, command
/// id, declared size, transfer length, and argument bytes.
pub proof fn lemma_encode_decode_round_trip(p: PicobootCommand)
    requires
        p.wf(),
    ensures
        p.spec_encode().len() == PACKET_LEN,
        u32_from_le(
            p.spec_encode()[0],
            p.spec_encode()[1],
            p.spec_encode()[2],
            p.spec_encode()[3],
        ) == PACKET_MAGIC,
        u32_from_le(
            p.spec_encode()[4],
            p.spec_encode()[5],
            p.spec_encode()[6],
            p.spec_encode()[7],
        ) == p.token,
        p.spec_encode()[8] == p.cmd_id,
        p.spec_encode()[9] == p.cmd_size,
        u16_from_le(p.spec_encode()[10], p.spec_encode()[11]) == p.reserved,
        u32_from_le(
            p.spec_encode()[12],
            p.spec_encode()[13],
            p.spec_encode()[14],
            p.spec_encode()[15],
        ) == p.transfer_length,
        p.spec_encode().subrange(16, 32) == p.args@,
{
    let b = p.spec_encode();
    assert(b[0] == u32_le(p.magic)[0] && b[1] == u32_le(p.magic)[1] && b[2] == u32_le(p.magic)[2]
        && b[3] == u32_le(p.magic)[3]);
    assert(b[4] == u32_le(p.token)[0] && b[5] == u32_le(p.token)[1] && b[6] == u32_le(p.token)[2]
        && b[7] == u32_le(p.token)[3]);
    assert(b[10] == u16_le(p.reserved)[0] && b[11] == u16_le(p.reserved)[1]);
    assert(b[12] == u32_le(p.transfer_length)[0] && b[13] == u32_le(p.transfer_length)[1]
        && b[14] == u32_le(p.transfer_length)[2] && b[15] == u32_le(p.transfer_length)[3]);
    lemma_u32_le_round_trip(p.magic);
    lemma_u32_le_round_trip(p.token);
    lemma_u16_le_round_trip(p.reserved);
    lemma_u32_le_round_trip(p.transfer_length);
    assert(b.subrange(16, 32) =~= p.args@);
}

} // verus!
