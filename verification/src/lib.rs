//! Frame codec for the CRSF serial telemetry protocol.
//!
//! The crate decodes and encodes CRSF frames from an untrusted byte stream:
//! a byte-synchronizing state machine with a fixed 64-byte working buffer,
//! a CRC-8/DVB-S2 integrity gate, a typed packet codec for every known
//! message kind, and a dispatcher from wire type tags to decoded records.

pub mod constants;
pub mod crc8;
pub mod error;
pub mod packets;
pub mod parser;
pub mod text;
pub mod wire;

pub use error::{CrsfParsingError, CrsfStreamError};
pub use packets::{write_packet_to_buffer, Packet, PacketAddress, PacketType};
pub use parser::{CrsfParser, RawCrsfPacket};
