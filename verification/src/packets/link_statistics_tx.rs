use crate::error::CrsfParsingError;
use crate::packets::CrsfPacket;
use crate::packets::PacketType;
use crate::wire::{i8_bits, i8_from_bits, i8_of_bits, i8_to_bits};
use vstd::prelude::*;

verus! {

/// Transmitter-side link statistics.
#[derive(Clone, Debug, PartialEq)]
pub struct LinkStatisticsTx {
    /// RSSI (dBm * -1).
    pub rssi_db: u8,
    /// RSSI in percent.
    pub rssi_percent: u8,
    /// Package success rate / link quality (%).
    pub link_quality: u8,
    /// SNR (dB).
    pub snr: i8,
    /// RF power in dBm.
    pub rf_power_db: u8,
    /// Frames per second divided by ten.
    pub fps: u8,
}

impl LinkStatisticsTx {
    pub const MIN_PAYLOAD_SIZE: usize = 6;
}

impl CrsfPacket for LinkStatisticsTx {
    open spec fn spec_packet_type() -> PacketType {
        PacketType::LinkStatisticsTx
    }

    open spec fn spec_min_payload_size() -> usize {
        6
    }

    open spec fn spec_to_bytes(self) -> Seq<u8> {
        seq![
            self.rssi_db,
            self.rssi_percent,
            self.link_quality,
            i8_bits(self.snr),
            self.rf_power_db,
            self.fps,
        ]
    }

    open spec fn from_bytes_post(data: Seq<u8>, r: Result<Self, CrsfParsingError>) -> bool {
        r == ({
            if data.len() == 6 {
                Ok(
                    LinkStatisticsTx {
                        rssi_db: data[0],
                        rssi_percent: data[1],
                        link_quality: data[2],
                        snr: i8_of_bits(data[3]),
                        rf_power_db: data[4],
                        fps: data[5],
                    },
                )
            } else {
                Err(CrsfParsingError::InvalidPayloadLength)
            }
        })
    }

    fn packet_type() -> (t: PacketType) {
        PacketType::LinkStatisticsTx
    }

    fn min_payload_size() -> (n: usize) {
        6
    }

    fn to_bytes(&self, buffer: &mut [u8]) -> (r: Result<usize, CrsfParsingError>) {
        if buffer.len() < 6 {
            return Err(CrsfParsingError::BufferOverflow);
        }
        buffer[0] = self.rssi_db;
        buffer[1] = self.rssi_percent;
        buffer[2] = self.link_quality;
        buffer[3] = i8_to_bits(self.snr);
        buffer[4] = self.rf_power_db;
        buffer[5] = self.fps;
        proof {
            assert(buffer@ =~= self.spec_to_bytes() + old(buffer)@.skip(6));
        }
        Ok(6)
    }

    fn from_bytes(data: &[u8]) -> (r: Result<Self, CrsfParsingError>) {
        if data.len() == 6 {
            Ok(
                Self {
                    rssi_db: data[0],
                    rssi_percent: data[1],
                    link_quality: data[2],
                    snr: i8_from_bits(data[3]),
                    rf_power_db: data[4],
                    fps: data[5],
                },
            )
        } else {
            Err(CrsfParsingError::InvalidPayloadLength)
        }
    }
}


/// Decoding the payload this record encodes gives the record back.
pub proof fn lemma_link_statistics_tx_round_trip(
    x: LinkStatisticsTx,
    r: Result<LinkStatisticsTx, CrsfParsingError>,
)
    requires
        LinkStatisticsTx::from_bytes_post(x.spec_to_bytes(), r),
    ensures
        r == Ok::<LinkStatisticsTx, CrsfParsingError>(x),
{
    broadcast use crate::wire::lemma_i8_bits_round_trip;

}

} // verus!
