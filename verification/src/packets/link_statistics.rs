use crate::error::CrsfParsingError;
use crate::packets::CrsfPacket;
use crate::packets::PacketType;
use crate::wire::{i8_bits, i8_from_bits, i8_of_bits, i8_to_bits};
use vstd::prelude::*;

verus! {

/// Statistics about the connection quality.
///
/// Uplink is the connection from the ground to the craft, downlink the
/// opposite direction.
#[derive(Clone, Debug, PartialEq)]
pub struct LinkStatistics {
    /// Uplink RSSI of antenna 1 (dBm * -1).
    pub uplink_rssi_1: u8,
    /// Uplink RSSI of antenna 2 (dBm * -1).
    pub uplink_rssi_2: u8,
    /// Uplink package success rate / link quality (%).
    pub uplink_link_quality: u8,
    /// Uplink SNR (dB).
    pub uplink_snr: i8,
    /// The currently active antenna.
    pub active_antenna: u8,
    /// RF profile.
    pub rf_mode: u8,
    /// Uplink TX power level.
    pub uplink_tx_power: u8,
    /// Downlink RSSI (dBm * -1).
    pub downlink_rssi: u8,
    /// Downlink package success rate / link quality (%).
    pub downlink_link_quality: u8,
    /// Downlink SNR (dB).
    pub downlink_snr: i8,
}

impl LinkStatistics {
    pub const MIN_PAYLOAD_SIZE: usize = 10;
}

impl CrsfPacket for LinkStatistics {
    open spec fn spec_packet_type() -> PacketType {
        PacketType::LinkStatistics
    }

    open spec fn spec_min_payload_size() -> usize {
        10
    }

    open spec fn spec_to_bytes(self) -> Seq<u8> {
        seq![
            self.uplink_rssi_1,
            self.uplink_rssi_2,
            self.uplink_link_quality,
            i8_bits(self.uplink_snr),
            self.active_antenna,
            self.rf_mode,
            self.uplink_tx_power,
            self.downlink_rssi,
            self.downlink_link_quality,
            i8_bits(self.downlink_snr),
        ]
    }

    open spec fn from_bytes_post(data: Seq<u8>, r: Result<Self, CrsfParsingError>) -> bool {
        r == ({
            if data.len() == 10 {
                Ok(
                    LinkStatistics {
                        uplink_rssi_1: data[0],
                        uplink_rssi_2: data[1],
                        uplink_link_quality: data[2],
                        uplink_snr: i8_of_bits(data[3]),
                        active_antenna: data[4],
                        rf_mode: data[5],
                        uplink_tx_power: data[6],
                        downlink_rssi: data[7],
                        downlink_link_quality: data[8],
                        downlink_snr: i8_of_bits(data[9]),
                    },
                )
            } else {
                Err(CrsfParsingError::InvalidPayloadLength)
            }
        })
    }

    fn packet_type() -> (t: PacketType) {
        PacketType::LinkStatistics
    }

    fn min_payload_size() -> (n: usize) {
        10
    }

    fn to_bytes(&self, buffer: &mut [u8]) -> (r: Result<usize, CrsfParsingError>) {
        if buffer.len() < 10 {
            return Err(CrsfParsingError::BufferOverflow);
        }
        buffer[0] = self.uplink_rssi_1;
        buffer[1] = self.uplink_rssi_2;
        buffer[2] = self.uplink_link_quality;
        buffer[3] = i8_to_bits(self.uplink_snr);
        buffer[4] = self.active_antenna;
        buffer[5] = self.rf_mode;
        buffer[6] = self.uplink_tx_power;
        buffer[7] = self.downlink_rssi;
        buffer[8] = self.downlink_link_quality;
        buffer[9] = i8_to_bits(self.downlink_snr);
        proof {
            assert(buffer@ =~= self.spec_to_bytes() + old(buffer)@.skip(10));
        }
        Ok(10)
    }

    fn from_bytes(data: &[u8]) -> (r: Result<Self, CrsfParsingError>) {
        if data.len() == 10 {
            Ok(
                Self {
                    uplink_rssi_1: data[0],
                    uplink_rssi_2: data[1],
                    uplink_link_quality: data[2],
                    uplink_snr: i8_from_bits(data[3]),
                    active_antenna: data[4],
                    rf_mode: data[5],
                    uplink_tx_power: data[6],
                    downlink_rssi: data[7],
                    downlink_link_quality: data[8],
                    downlink_snr: i8_from_bits(data[9]),
                },
            )
        } else {
            Err(CrsfParsingError::InvalidPayloadLength)
        }
    }
}


/// Decoding the payload this record encodes gives the record back.
pub proof fn lemma_link_statistics_round_trip(
    x: LinkStatistics,
    r: Result<LinkStatistics, CrsfParsingError>,
)
    requires
        LinkStatistics::from_bytes_post(x.spec_to_bytes(), r),
    ensures
        r == Ok::<LinkStatistics, CrsfParsingError>(x),
{
    broadcast use crate::wire::lemma_i8_bits_round_trip;

}

} // verus!
