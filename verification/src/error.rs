use vstd::prelude::*;

verus! {

/// Error raised by a packet codec while decoding or encoding one payload.
#[derive(Debug, Clone, Copy, PartialEq, Eq)]
pub enum CrsfParsingError {
    /// The frame's type byte does not name any known packet kind.
    UnexpectedPacketType(u8),
    /// The frame's type byte names a packet kind without a codec.
    PacketNotImlemented(u8),
    /// The payload is shorter (or, for fixed-size records, not exactly
    /// as long) as the packet kind demands.
    InvalidPayloadLength,
    /// The payload bytes do not form a value of the packet kind.
    InvalidPayload,
    /// The output buffer cannot hold the encoded payload.
    BufferOverflow,
}

/// Error raised by the frame state machine while scanning a byte stream.
#[derive(Debug, Clone, Copy, PartialEq, Eq)]
pub enum CrsfStreamError {
    /// The length byte would give a frame outside the permitted sizes.
    InvalidPacketLength(u8),
    /// A byte arrived between frames that is not a known address.
    InvalidSync(u8),
    /// The received CRC byte disagrees with the digest over type and payload.
    InvalidCrc { calculated_crc: u8, packet_crc: u8 },
    /// The frame's type byte does not name any known packet kind.
    UnexpectedPacketType(u8),
    /// A complete frame arrived but its payload could not be decoded.
    ParsingError(CrsfParsingError),
    /// A complete frame would not fit the working buffer.
    InputBufferTooSmall,
}

impl From<CrsfParsingError> for CrsfStreamError {
    fn from(e: CrsfParsingError) -> (r: Self)
        ensures
            r == CrsfStreamError::ParsingError(e),
    {
        CrsfStreamError::ParsingError(e)
    }
}

impl vstd::std_specs::convert::FromSpecImpl<CrsfParsingError> for CrsfStreamError {
    open spec fn obeys_from_spec() -> bool {
        true
    }

    open spec fn from_spec(e: CrsfParsingError) -> Self {
        CrsfStreamError::ParsingError(e)
    }
}

} // verus!
