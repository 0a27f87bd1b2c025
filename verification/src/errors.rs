use vstd::prelude::*;

verus! {

/// Failures the protocol engine can detect on its own, before or instead of
/// touching the transport: local validation failures, malformed buffers, and
/// protocol violations in what the device sent back.
#[derive(Clone, Copy, Debug, PartialEq, Eq, Structural)]
pub enum ProtocolError {
    /// No attached device exposes the bootloader's vendor interface.
    DeviceNotFound,
    /// An address or size argument breaks the command's alignment rule.
    Misaligned,
    /// A request-style command declared a data phase but no buffer was supplied.
    MissingData,
    /// The supplied data buffer does not match the declared transfer length.
    LengthMismatch,
    /// A packet buffer to decode is not exactly 32 bytes long.
    InvalidPacketLength,
    /// A packet buffer to decode does not start with the protocol magic.
    BadMagic,
    /// A status buffer to decode is not exactly 16 bytes long.
    InvalidStatusLength,
    /// The status-code field is outside the known enumeration.
    UnknownStatusCode,
    /// A bulk transfer moved zero bytes where data was owed.
    ZeroLengthTransfer,
    /// The interface-reset request carried a nonzero data stage.
    UnexpectedResetData,
}

} // verus!
