use vstd::prelude::*;

verus! {

/// Largest frame size on the wire, all framing included.
pub const CRSF_MAX_PACKET_SIZE: usize = 64;

/// Smallest frame size on the wire: address, length, type and CRC
/// around a payload of at least one byte is four bytes of framing
/// with the type counted inside the length field.
pub const CRSF_MIN_PACKET_SIZE: usize = 4;

} // verus!
