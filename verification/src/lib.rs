//! Host-side client library for the RP2040 USB bootloader command protocol.
//!
//! The library owns everything that can be stated and proved about the
//! protocol: the 32-byte command packet layout and its little-endian codec,
//! the monotonically increasing correlation token, the three-phase bulk
//! handshake with its per-command validation rules, the 16-byte command
//! status structure and its closed status-code enumeration, the
//! control-channel request layouts, and the scan that picks the
//! bootloader's vendor interface out of a USB descriptor tree.
//!
//! The USB transport itself (device enumeration, open/claim, bulk and
//! control transfers) stays with the caller: every command is planned here
//! as an explicit sequence of transfer steps, which the caller carries out
//! in order against its USB host library, treating a zero-byte transfer
//! result as fatal.

pub mod codec;
pub mod control;
pub mod discovery;
pub mod engine;
pub mod errors;
pub mod packet;
pub mod status;

pub use codec::{u16_from_le, u16_le, u32_from_le, u32_le};
pub use control::ControlRequest;
pub use discovery::{
    AltSettingDescriptor, ConfigDescriptor, DeviceDescriptor, DeviceInformation,
    EndpointDescriptor,
};
pub use engine::{CommandEngine, ExclusivityOption, TransferStep};
pub use errors::ProtocolError;
pub use packet::{PicobootCommand, TokenCounter};
pub use status::{CommandStatus, CommandStatusCode};
