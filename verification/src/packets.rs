use crate::error::CrsfParsingError;
use vstd::prelude::*;

mod airspeed;
mod attitude;
mod baro_altitude;
mod battery;
mod commands;
mod device_information;
mod device_ping;
mod esp_now;
mod flight_mode;
mod game;
mod gps;
mod gps_extended;
mod gps_time;
mod heartbeat;
mod link_statistics;
mod link_statistics_rx;
mod link_statistics_tx;
mod logging;
mod mavlink_envelope;
mod mavlink_fc;
mod mavlink_sensor;
mod rc_channels_packed;
mod remote;
mod rpm;
mod temp;
mod vario;
mod voltages;
mod vtx_telemetry;

pub use airspeed::lemma_airspeed_round_trip;
pub use airspeed::AirSpeed;
pub use attitude::lemma_attitude_round_trip;
pub use attitude::Attitude;
pub use baro_altitude::lemma_altitude_dm_round_trip;
pub use baro_altitude::spec_altitude_dm;
pub use baro_altitude::spec_altitude_packed;
pub use baro_altitude::lemma_altitude_m_round_trip;
pub use baro_altitude::lemma_baro_altitude_round_trip;
pub use baro_altitude::BaroAltitude;
pub use battery::lemma_battery_round_trip;
pub use battery::Battery;
pub use commands::CommandAck;
pub use commands::CommandPayload;
pub use commands::CrossfireCommand;
pub use commands::DirectCommands;
pub use commands::FcCommand;
pub use commands::FlowControlCommand;
pub use commands::OsdCommand;
pub use commands::VtxCommand;
pub use device_information::DeviceInformation;
pub use device_ping::lemma_device_ping_round_trip;
pub use device_ping::DevicePing;
pub use esp_now::lemma_esp_now_round_trip;
pub use esp_now::EspNow;
pub use flight_mode::lemma_flight_mode_round_trip;
pub use flight_mode::FlightMode;
pub use game::lemma_game_round_trip;
pub use game::Game;
pub use game::GamePayload;
pub use gps::lemma_gps_round_trip;
pub use gps::Gps;
pub use gps_extended::lemma_gps_extended_round_trip;
pub use gps_extended::GpsExtended;
pub use gps_time::lemma_gps_time_round_trip;
pub use gps_time::GpsTime;
pub use heartbeat::lemma_heartbeat_round_trip;
pub use heartbeat::Heartbeat;
pub use link_statistics::lemma_link_statistics_round_trip;
pub use link_statistics::LinkStatistics;
pub use link_statistics_rx::lemma_link_statistics_rx_round_trip;
pub use link_statistics_rx::LinkStatisticsRx;
pub use link_statistics_tx::lemma_link_statistics_tx_round_trip;
pub use link_statistics_tx::LinkStatisticsTx;
pub use logging::lemma_logging_round_trip;
pub use logging::Logging;
pub use mavlink_envelope::lemma_mavlink_envelope_round_trip;
pub use mavlink_envelope::MavlinkEnvelope;
pub use mavlink_fc::lemma_mavlink_fc_round_trip;
pub use mavlink_fc::MavLinkFc;
pub use mavlink_sensor::lemma_mavlink_sensor_round_trip;
pub use mavlink_sensor::MavLinkSensor;
pub use rc_channels_packed::lemma_channels_round_trip;
pub use rc_channels_packed::lemma_rc_channels_round_trip;
pub use rc_channels_packed::RcChannelsPacked;
pub use remote::lemma_remote_round_trip;
pub use remote::Remote;
pub use remote::RemotePayload;
pub use remote::TimingCorrection;
pub use rpm::lemma_rpm_round_trip;
pub use rpm::Rpm;
pub use temp::lemma_temp_round_trip;
pub use temp::Temp;
pub use vario::lemma_vario_round_trip;
pub use vario::VariometerSensor;
pub use voltages::lemma_voltages_round_trip;
pub use voltages::Voltages;
pub use vtx_telemetry::lemma_vtx_telemetry_round_trip;
pub use vtx_telemetry::VtxTelemetry;

verus! {

/// Every frame type tag the protocol documents.
///
/// The wire carries the tag as one byte; `to_u8` and `try_from_u8` map
/// between the enumeration and that byte.
#[non_exhaustive]
#[derive(Clone, Copy, Debug, PartialEq, Eq)]
pub enum PacketType {
    Gps,
    GpsTime,
    GpsExtended,
    Vario,
    BatterySensor,
    BaroAltitude,
    AirSpeed,
    Rpm,
    Temp,
    Voltages,
    VtxTelemetry,
    Heartbeat,
    LinkStatistics,
    RcChannelsPacked,
    SubsetRcChannelsPacked,
    LinkStatisticsRx,
    LinkStatisticsTx,
    Attitude,
    MavLinkFc,
    FlightMode,
    EspNow,
    DevicePing,
    DeviceInfo,
    ParameterSettingsEntry,
    ParameterRead,
    ParameterWrite,
    ElrsStatus,
    Command,
    RadioId,
    Logging,
    Game,
    KissRequest,
    KissResponse,
    MspRequest,
    MspResponse,
    MspWrite,
    ArdupilotResponse,
    MavlinkEnvelope,
    MavLinkSensor,
}

impl PacketType {
    /// The wire byte of each tag.
    pub open spec fn spec_to_u8(self) -> u8 {
        match self {
            PacketType::Gps => 0x02,
            PacketType::GpsTime => 0x03,
            PacketType::GpsExtended => 0x06,
            PacketType::Vario => 0x07,
            PacketType::BatterySensor => 0x08,
            PacketType::BaroAltitude => 0x09,
            PacketType::AirSpeed => 0x0A,
            PacketType::Rpm => 0x0C,
            PacketType::Temp => 0x0D,
            PacketType::Voltages => 0x0E,
            PacketType::VtxTelemetry => 0x10,
            PacketType::Heartbeat => 0x0B,
            PacketType::LinkStatistics => 0x14,
            PacketType::RcChannelsPacked => 0x16,
            PacketType::SubsetRcChannelsPacked => 0x17,
            PacketType::LinkStatisticsRx => 0x1C,
            PacketType::LinkStatisticsTx => 0x1D,
            PacketType::Attitude => 0x1E,
            PacketType::MavLinkFc => 0x1F,
            PacketType::FlightMode => 0x21,
            PacketType::EspNow => 0x22,
            PacketType::DevicePing => 0x28,
            PacketType::DeviceInfo => 0x29,
            PacketType::ParameterSettingsEntry => 0x2B,
            PacketType::ParameterRead => 0x2C,
            PacketType::ParameterWrite => 0x2D,
            PacketType::ElrsStatus => 0x2E,
            PacketType::Command => 0x32,
            PacketType::RadioId => 0x3A,
            PacketType::Logging => 0x34,
            PacketType::Game => 0x3C,
            PacketType::KissRequest => 0x78,
            PacketType::KissResponse => 0x79,
            PacketType::MspRequest => 0x7A,
            PacketType::MspResponse => 0x7B,
            PacketType::MspWrite => 0x7C,
            PacketType::ArdupilotResponse => 0x80,
            PacketType::MavlinkEnvelope => 0xAA,
            PacketType::MavLinkSensor => 0xAC,
        }
    }

    /// The tag named by a wire byte, if any.
    pub open spec fn spec_try_from_u8(value: u8) -> Option<PacketType> {
        match value {
            0x02 => Some(PacketType::Gps),
            0x03 => Some(PacketType::GpsTime),
            0x06 => Some(PacketType::GpsExtended),
            0x07 => Some(PacketType::Vario),
            0x08 => Some(PacketType::BatterySensor),
            0x09 => Some(PacketType::BaroAltitude),
            0x0A => Some(PacketType::AirSpeed),
            0x0C => Some(PacketType::Rpm),
            0x0D => Some(PacketType::Temp),
            0x0E => Some(PacketType::Voltages),
            0x10 => Some(PacketType::VtxTelemetry),
            0x0B => Some(PacketType::Heartbeat),
            0x14 => Some(PacketType::LinkStatistics),
            0x16 => Some(PacketType::RcChannelsPacked),
            0x17 => Some(PacketType::SubsetRcChannelsPacked),
            0x1C => Some(PacketType::LinkStatisticsRx),
            0x1D => Some(PacketType::LinkStatisticsTx),
            0x1E => Some(PacketType::Attitude),
            0x1F => Some(PacketType::MavLinkFc),
            0x21 => Some(PacketType::FlightMode),
            0x22 => Some(PacketType::EspNow),
            0x28 => Some(PacketType::DevicePing),
            0x29 => Some(PacketType::DeviceInfo),
            0x2B => Some(PacketType::ParameterSettingsEntry),
            0x2C => Some(PacketType::ParameterRead),
            0x2D => Some(PacketType::ParameterWrite),
            0x2E => Some(PacketType::ElrsStatus),
            0x32 => Some(PacketType::Command),
            0x3A => Some(PacketType::RadioId),
            0x34 => Some(PacketType::Logging),
            0x3C => Some(PacketType::Game),
            0x78 => Some(PacketType::KissRequest),
            0x79 => Some(PacketType::KissResponse),
            0x7A => Some(PacketType::MspRequest),
            0x7B => Some(PacketType::MspResponse),
            0x7C => Some(PacketType::MspWrite),
            0x80 => Some(PacketType::ArdupilotResponse),
            0xAA => Some(PacketType::MavlinkEnvelope),
            0xAC => Some(PacketType::MavLinkSensor),
            _ => None,
        }
    }

    pub fn to_u8(self) -> (r: u8)
        ensures
            r == self.spec_to_u8(),
            Self::spec_try_from_u8(r) == Some(self),
    {
        match self {
            PacketType::Gps => 0x02,
            PacketType::GpsTime => 0x03,
            PacketType::GpsExtended => 0x06,
            PacketType::Vario => 0x07,
            PacketType::BatterySensor => 0x08,
            PacketType::BaroAltitude => 0x09,
            PacketType::AirSpeed => 0x0A,
            PacketType::Rpm => 0x0C,
            PacketType::Temp => 0x0D,
            PacketType::Voltages => 0x0E,
            PacketType::VtxTelemetry => 0x10,
            PacketType::Heartbeat => 0x0B,
            PacketType::LinkStatistics => 0x14,
            PacketType::RcChannelsPacked => 0x16,
            PacketType::SubsetRcChannelsPacked => 0x17,
            PacketType::LinkStatisticsRx => 0x1C,
            PacketType::LinkStatisticsTx => 0x1D,
            PacketType::Attitude => 0x1E,
            PacketType::MavLinkFc => 0x1F,
            PacketType::FlightMode => 0x21,
            PacketType::EspNow => 0x22,
            PacketType::DevicePing => 0x28,
            PacketType::DeviceInfo => 0x29,
            PacketType::ParameterSettingsEntry => 0x2B,
            PacketType::ParameterRead => 0x2C,
            PacketType::ParameterWrite => 0x2D,
            PacketType::ElrsStatus => 0x2E,
            PacketType::Command => 0x32,
            PacketType::RadioId => 0x3A,
            PacketType::Logging => 0x34,
            PacketType::Game => 0x3C,
            PacketType::KissRequest => 0x78,
            PacketType::KissResponse => 0x79,
            PacketType::MspRequest => 0x7A,
            PacketType::MspResponse => 0x7B,
            PacketType::MspWrite => 0x7C,
            PacketType::ArdupilotResponse => 0x80,
            PacketType::MavlinkEnvelope => 0xAA,
            PacketType::MavLinkSensor => 0xAC,
        }
    }

    pub fn try_from_u8(value: u8) -> (r: Option<PacketType>)
        ensures
            r == Self::spec_try_from_u8(value),
    {
        match value {
            0x02 => Some(PacketType::Gps),
            0x03 => Some(PacketType::GpsTime),
            0x06 => Some(PacketType::GpsExtended),
            0x07 => Some(PacketType::Vario),
            0x08 => Some(PacketType::BatterySensor),
            0x09 => Some(PacketType::BaroAltitude),
            0x0A => Some(PacketType::AirSpeed),
            0x0C => Some(PacketType::Rpm),
            0x0D => Some(PacketType::Temp),
            0x0E => Some(PacketType::Voltages),
            0x10 => Some(PacketType::VtxTelemetry),
            0x0B => Some(PacketType::Heartbeat),
            0x14 => Some(PacketType::LinkStatistics),
            0x16 => Some(PacketType::RcChannelsPacked),
            0x17 => Some(PacketType::SubsetRcChannelsPacked),
            0x1C => Some(PacketType::LinkStatisticsRx),
            0x1D => Some(PacketType::LinkStatisticsTx),
            0x1E => Some(PacketType::Attitude),
            0x1F => Some(PacketType::MavLinkFc),
            0x21 => Some(PacketType::FlightMode),
            0x22 => Some(PacketType::EspNow),
            0x28 => Some(PacketType::DevicePing),
            0x29 => Some(PacketType::DeviceInfo),
            0x2B => Some(PacketType::ParameterSettingsEntry),
            0x2C => Some(PacketType::ParameterRead),
            0x2D => Some(PacketType::ParameterWrite),
            0x2E => Some(PacketType::ElrsStatus),
            0x32 => Some(PacketType::Command),
            0x3A => Some(PacketType::RadioId),
            0x34 => Some(PacketType::Logging),
            0x3C => Some(PacketType::Game),
            0x78 => Some(PacketType::KissRequest),
            0x79 => Some(PacketType::KissResponse),
            0x7A => Some(PacketType::MspRequest),
            0x7B => Some(PacketType::MspResponse),
            0x7C => Some(PacketType::MspWrite),
            0x80 => Some(PacketType::ArdupilotResponse),
            0xAA => Some(PacketType::MavlinkEnvelope),
            0xAC => Some(PacketType::MavLinkSensor),
            _ => None,
        }
    }

    /// Tags at or above the extended-frame threshold carry a two-byte
    /// destination/source sub-header at the start of the payload.
    pub fn is_extended(self) -> (r: bool)
        ensures
            r == (self.spec_to_u8() >= 0x28),
    {
        self.to_u8() >= 0x28
    }
}

/// Every endpoint address the protocol documents.
///
/// The address byte both routes a frame and marks its start.
#[non_exhaustive]
#[derive(Clone, Copy, Debug, PartialEq, Eq)]
pub enum PacketAddress {
    Broadcast,
    Cloud,
    Usb,
    Bluetooth,
    WifiReceiver,
    VideoReceiver,
    TbsCorePnpPro,
    Esc1,
    Esc2,
    Esc3,
    Esc4,
    Esc5,
    Esc6,
    Esc7,
    Esc8,
    CurrentSensor,
    Gps,
    TbsBlackbox,
    FlightController,
    RaceTag,
    VTX,
    Handset,
    Receiver,
    Transmitter,
}

impl PacketAddress {
    /// The wire byte of each address.
    pub open spec fn spec_to_u8(self) -> u8 {
        match self {
            PacketAddress::Broadcast => 0x00,
            PacketAddress::Cloud => 0x0E,
            PacketAddress::Usb => 0x10,
            PacketAddress::Bluetooth => 0x12,
            PacketAddress::WifiReceiver => 0x13,
            PacketAddress::VideoReceiver => 0x14,
            PacketAddress::TbsCorePnpPro => 0x80,
            PacketAddress::Esc1 => 0x90,
            PacketAddress::Esc2 => 0x91,
            PacketAddress::Esc3 => 0x92,
            PacketAddress::Esc4 => 0x93,
            PacketAddress::Esc5 => 0x94,
            PacketAddress::Esc6 => 0x95,
            PacketAddress::Esc7 => 0x96,
            PacketAddress::Esc8 => 0x97,
            PacketAddress::CurrentSensor => 0xC0,
            PacketAddress::Gps => 0xC2,
            PacketAddress::TbsBlackbox => 0xC4,
            PacketAddress::FlightController => 0xC8,
            PacketAddress::RaceTag => 0xCC,
            PacketAddress::VTX => 0xCE,
            PacketAddress::Handset => 0xEA,
            PacketAddress::Receiver => 0xEC,
            PacketAddress::Transmitter => 0xEE,
        }
    }

    /// The address named by a wire byte, if any: the membership test that
    /// synchronizes the frame state machine.
    pub open spec fn spec_try_from_u8(value: u8) -> Option<PacketAddress> {
        match value {
            0x00 => Some(PacketAddress::Broadcast),
            0x0E => Some(PacketAddress::Cloud),
            0x10 => Some(PacketAddress::Usb),
            0x12 => Some(PacketAddress::Bluetooth),
            0x13 => Some(PacketAddress::WifiReceiver),
            0x14 => Some(PacketAddress::VideoReceiver),
            0x80 => Some(PacketAddress::TbsCorePnpPro),
            0x90 => Some(PacketAddress::Esc1),
            0x91 => Some(PacketAddress::Esc2),
            0x92 => Some(PacketAddress::Esc3),
            0x93 => Some(PacketAddress::Esc4),
            0x94 => Some(PacketAddress::Esc5),
            0x95 => Some(PacketAddress::Esc6),
            0x96 => Some(PacketAddress::Esc7),
            0x97 => Some(PacketAddress::Esc8),
            0xC0 => Some(PacketAddress::CurrentSensor),
            0xC2 => Some(PacketAddress::Gps),
            0xC4 => Some(PacketAddress::TbsBlackbox),
            0xC8 => Some(PacketAddress::FlightController),
            0xCC => Some(PacketAddress::RaceTag),
            0xCE => Some(PacketAddress::VTX),
            0xEA => Some(PacketAddress::Handset),
            0xEC => Some(PacketAddress::Receiver),
            0xEE => Some(PacketAddress::Transmitter),
            _ => None,
        }
    }

    /// Whether a byte is a member of the address set.
    pub open spec fn spec_is_valid(value: u8) -> bool {
        Self::spec_try_from_u8(value) is Some
    }

    pub fn to_u8(self) -> (r: u8)
        ensures
            r == self.spec_to_u8(),
            Self::spec_try_from_u8(r) == Some(self),
    {
        match self {
            PacketAddress::Broadcast => 0x00,
            PacketAddress::Cloud => 0x0E,
            PacketAddress::Usb => 0x10,
            PacketAddress::Bluetooth => 0x12,
            PacketAddress::WifiReceiver => 0x13,
            PacketAddress::VideoReceiver => 0x14,
            PacketAddress::TbsCorePnpPro => 0x80,
            PacketAddress::Esc1 => 0x90,
            PacketAddress::Esc2 => 0x91,
            PacketAddress::Esc3 => 0x92,
            PacketAddress::Esc4 => 0x93,
            PacketAddress::Esc5 => 0x94,
            PacketAddress::Esc6 => 0x95,
            PacketAddress::Esc7 => 0x96,
            PacketAddress::Esc8 => 0x97,
            PacketAddress::CurrentSensor => 0xC0,
            PacketAddress::Gps => 0xC2,
            PacketAddress::TbsBlackbox => 0xC4,
            PacketAddress::FlightController => 0xC8,
            PacketAddress::RaceTag => 0xCC,
            PacketAddress::VTX => 0xCE,
            PacketAddress::Handset => 0xEA,
            PacketAddress::Receiver => 0xEC,
            PacketAddress::Transmitter => 0xEE,
        }
    }

    pub fn try_from_u8(value: u8) -> (r: Option<PacketAddress>)
        ensures
            r == Self::spec_try_from_u8(value),
    {
        match value {
            0x00 => Some(PacketAddress::Broadcast),
            0x0E => Some(PacketAddress::Cloud),
            0x10 => Some(PacketAddress::Usb),
            0x12 => Some(PacketAddress::Bluetooth),
            0x13 => Some(PacketAddress::WifiReceiver),
            0x14 => Some(PacketAddress::VideoReceiver),
            0x80 => Some(PacketAddress::TbsCorePnpPro),
            0x90 => Some(PacketAddress::Esc1),
            0x91 => Some(PacketAddress::Esc2),
            0x92 => Some(PacketAddress::Esc3),
            0x93 => Some(PacketAddress::Esc4),
            0x94 => Some(PacketAddress::Esc5),
            0x95 => Some(PacketAddress::Esc6),
            0x96 => Some(PacketAddress::Esc7),
            0x97 => Some(PacketAddress::Esc8),
            0xC0 => Some(PacketAddress::CurrentSensor),
            0xC2 => Some(PacketAddress::Gps),
            0xC4 => Some(PacketAddress::TbsBlackbox),
            0xC8 => Some(PacketAddress::FlightController),
            0xCC => Some(PacketAddress::RaceTag),
            0xCE => Some(PacketAddress::VTX),
            0xEA => Some(PacketAddress::Handset),
            0xEC => Some(PacketAddress::Receiver),
            0xEE => Some(PacketAddress::Transmitter),
            _ => None,
        }
    }
}

/// The capability every packet codec implements: a frame type tag, a least
/// payload size, and an exact decoder and encoder for the payload bytes.
pub trait CrsfPacket: Sized {
    /// The frame type tag of this packet kind.
    spec fn spec_packet_type() -> PacketType;

    /// The least payload length the decoder accepts.
    spec fn spec_min_payload_size() -> usize;

    /// The exact payload bytes that encoding this record produces.
    spec fn spec_to_bytes(self) -> Seq<u8>;

    /// What decoding a payload returns, exactly: which error comes on
    /// which payloads, and every field of the record on success.
    spec fn from_bytes_post(data: Seq<u8>, r: Result<Self, CrsfParsingError>) -> bool;

    /// The frame type tag of this packet kind.
    fn packet_type() -> (t: PacketType)
        ensures
            t == Self::spec_packet_type(),
    ;

    /// The least payload length the decoder accepts; for fixed-size
    /// records it is the one payload size the codec produces and accepts.
    fn min_payload_size() -> (n: usize)
        ensures
            n == Self::spec_min_payload_size(),
    ;

    /// Decodes a payload into a record, or says why the payload is no
    /// encoding of one.
    fn from_bytes(data: &[u8]) -> (r: Result<Self, CrsfParsingError>)
        ensures
            Self::from_bytes_post(data@, r),
    ;

    /// Rejects an output buffer smaller than the least payload size.
    fn validate_buffer_size(&self, buffer: &[u8]) -> (r: Result<(), CrsfParsingError>)
        ensures
            r == (if buffer@.len() >= Self::spec_min_payload_size() {
                Ok::<(), CrsfParsingError>(())
            } else {
                Err::<(), CrsfParsingError>(CrsfParsingError::BufferOverflow)
            }),
    {
        if buffer.len() < Self::min_payload_size() {
            return Err(CrsfParsingError::BufferOverflow);
        }
        Ok(())
    }

    /// Encodes the record's payload bytes at the start of `buffer` and
    /// returns how many bytes were written; rejects a buffer that cannot
    /// hold them, leaving it unchanged.
    fn to_bytes(&self, buffer: &mut [u8]) -> (r: Result<usize, CrsfParsingError>)
        ensures
            ({
                let payload = self.spec_to_bytes();
                if old(buffer)@.len() >= payload.len() {
                    &&& r == Ok::<usize, CrsfParsingError>(payload.len() as usize)
                    &&& final(buffer)@ == payload + old(buffer)@.skip(payload.len() as int)
                } else {
                    &&& r == Err::<usize, CrsfParsingError>(CrsfParsingError::BufferOverflow)
                    &&& final(buffer)@ == old(buffer)@
                }
            }),
    ;
}


/// A decoded frame: one variant per packet kind with a codec, and a
/// fallback carrying the tag and payload length of a recognized kind
/// without one.
#[derive(Clone, Debug, PartialEq)]
pub enum Packet {
    LinkStatistics(LinkStatistics),
    LinkStatisticsRx(LinkStatisticsRx),
    LinkStatisticsTx(LinkStatisticsTx),
    RCChannels(RcChannelsPacked),
    Gps(Gps),
    GpsTime(GpsTime),
    GpsExtended(GpsExtended),
    Vario(VariometerSensor),
    Battery(Battery),
    AirSpeed(AirSpeed),
    BaroAltitude(BaroAltitude),
    Rpm(Rpm),
    Temp(Temp),
    Voltages(Voltages),
    VtxTelemetry(VtxTelemetry),
    FlightMode(FlightMode),
    Heartbeat(Heartbeat),
    EspNow(EspNow),
    MavlinkEnvelope(MavlinkEnvelope),
    MavLinkFc(MavLinkFc),
    Remote(Remote),
    NotImlemented(PacketType, usize),
}

/// What dispatching a frame's type byte and payload returns, exactly:
/// the matching codec's outcome in the matching variant, the fallback
/// for a known tag without a codec, and an error for an unknown tag.
pub open spec fn spec_parse_post(
    type_byte: u8,
    payload: Seq<u8>,
    r: Result<Packet, CrsfParsingError>,
) -> bool {
    match PacketType::spec_try_from_u8(type_byte) {
        None => r == Err::<Packet, CrsfParsingError>(
            CrsfParsingError::UnexpectedPacketType(type_byte),
        ),
        Some(pt) => match pt {
            PacketType::LinkStatistics => match r {
                Ok(Packet::LinkStatistics(p)) => LinkStatistics::from_bytes_post(payload, Ok(p)),
                Err(e) => LinkStatistics::from_bytes_post(payload, Err(e)),
                _ => false,
            },
            PacketType::LinkStatisticsTx => match r {
                Ok(Packet::LinkStatisticsTx(p)) => LinkStatisticsTx::from_bytes_post(
                    payload,
                    Ok(p),
                ),
                Err(e) => LinkStatisticsTx::from_bytes_post(payload, Err(e)),
                _ => false,
            },
            PacketType::LinkStatisticsRx => match r {
                Ok(Packet::LinkStatisticsRx(p)) => LinkStatisticsRx::from_bytes_post(
                    payload,
                    Ok(p),
                ),
                Err(e) => LinkStatisticsRx::from_bytes_post(payload, Err(e)),
                _ => false,
            },
            PacketType::RcChannelsPacked => match r {
                Ok(Packet::RCChannels(p)) => RcChannelsPacked::from_bytes_post(payload, Ok(p)),
                Err(e) => RcChannelsPacked::from_bytes_post(payload, Err(e)),
                _ => false,
            },
            PacketType::Gps => match r {
                Ok(Packet::Gps(p)) => Gps::from_bytes_post(payload, Ok(p)),
                Err(e) => Gps::from_bytes_post(payload, Err(e)),
                _ => false,
            },
            PacketType::GpsTime => match r {
                Ok(Packet::GpsTime(p)) => GpsTime::from_bytes_post(payload, Ok(p)),
                Err(e) => GpsTime::from_bytes_post(payload, Err(e)),
                _ => false,
            },
            PacketType::GpsExtended => match r {
                Ok(Packet::GpsExtended(p)) => GpsExtended::from_bytes_post(payload, Ok(p)),
                Err(e) => GpsExtended::from_bytes_post(payload, Err(e)),
                _ => false,
            },
            PacketType::AirSpeed => match r {
                Ok(Packet::AirSpeed(p)) => AirSpeed::from_bytes_post(payload, Ok(p)),
                Err(e) => AirSpeed::from_bytes_post(payload, Err(e)),
                _ => false,
            },
            PacketType::BaroAltitude => match r {
                Ok(Packet::BaroAltitude(p)) => BaroAltitude::from_bytes_post(payload, Ok(p)),
                Err(e) => BaroAltitude::from_bytes_post(payload, Err(e)),
                _ => false,
            },
            PacketType::BatterySensor => match r {
                Ok(Packet::Battery(p)) => Battery::from_bytes_post(payload, Ok(p)),
                Err(e) => Battery::from_bytes_post(payload, Err(e)),
                _ => false,
            },
            PacketType::FlightMode => match r {
                Ok(Packet::FlightMode(p)) => FlightMode::from_bytes_post(payload, Ok(p)),
                Err(e) => FlightMode::from_bytes_post(payload, Err(e)),
                _ => false,
            },
            PacketType::Rpm => match r {
                Ok(Packet::Rpm(p)) => Rpm::from_bytes_post(payload, Ok(p)),
                Err(e) => Rpm::from_bytes_post(payload, Err(e)),
                _ => false,
            },
            PacketType::Temp => match r {
                Ok(Packet::Temp(p)) => Temp::from_bytes_post(payload, Ok(p)),
                Err(e) => Temp::from_bytes_post(payload, Err(e)),
                _ => false,
            },
            PacketType::Voltages => match r {
                Ok(Packet::Voltages(p)) => Voltages::from_bytes_post(payload, Ok(p)),
                Err(e) => Voltages::from_bytes_post(payload, Err(e)),
                _ => false,
            },
            PacketType::VtxTelemetry => match r {
                Ok(Packet::VtxTelemetry(p)) => VtxTelemetry::from_bytes_post(payload, Ok(p)),
                Err(e) => VtxTelemetry::from_bytes_post(payload, Err(e)),
                _ => false,
            },
            PacketType::Vario => match r {
                Ok(Packet::Vario(p)) => VariometerSensor::from_bytes_post(payload, Ok(p)),
                Err(e) => VariometerSensor::from_bytes_post(payload, Err(e)),
                _ => false,
            },
            PacketType::EspNow => match r {
                Ok(Packet::EspNow(p)) => EspNow::from_bytes_post(payload, Ok(p)),
                Err(e) => EspNow::from_bytes_post(payload, Err(e)),
                _ => false,
            },
            PacketType::Heartbeat => match r {
                Ok(Packet::Heartbeat(p)) => Heartbeat::from_bytes_post(payload, Ok(p)),
                Err(e) => Heartbeat::from_bytes_post(payload, Err(e)),
                _ => false,
            },
            PacketType::MavLinkFc => match r {
                Ok(Packet::MavLinkFc(p)) => MavLinkFc::from_bytes_post(payload, Ok(p)),
                Err(e) => MavLinkFc::from_bytes_post(payload, Err(e)),
                _ => false,
            },
            PacketType::MavlinkEnvelope => match r {
                Ok(Packet::MavlinkEnvelope(p)) => MavlinkEnvelope::from_bytes_post(
                    payload,
                    Ok(p),
                ),
                Err(e) => MavlinkEnvelope::from_bytes_post(payload, Err(e)),
                _ => false,
            },
            _ => r == Ok::<Packet, CrsfParsingError>(
                Packet::NotImlemented(pt, payload.len() as usize),
            ),
        },
    }
}

impl Packet {
    /// Looks the frame's type tag up and decodes its payload with the
    /// matching codec; a recognized tag without a codec becomes the
    /// fallback variant, an unknown tag an error.
    pub fn parse(raw_packet: &crate::parser::RawCrsfPacket<'_>) -> (r: Result<
        Packet,
        CrsfParsingError,
    >)
        requires
            raw_packet@.len() >= 4,
        ensures
            spec_parse_post(raw_packet@[2], raw_packet@.subrange(3, raw_packet@.len() - 1), r),
    {
        let type_byte = raw_packet.raw_packet_type();
        let packet_type = match PacketType::try_from_u8(type_byte) {
            None => {
                return Err(CrsfParsingError::UnexpectedPacketType(type_byte));
            },
            Some(pt) => pt,
        };
        let data = raw_packet.payload();
        match packet_type {
            PacketType::LinkStatistics => match LinkStatistics::from_bytes(data) {
                Ok(p) => Ok(Packet::LinkStatistics(p)),
                Err(e) => Err(e),
            },
            PacketType::LinkStatisticsTx => match LinkStatisticsTx::from_bytes(data) {
                Ok(p) => Ok(Packet::LinkStatisticsTx(p)),
                Err(e) => Err(e),
            },
            PacketType::LinkStatisticsRx => match LinkStatisticsRx::from_bytes(data) {
                Ok(p) => Ok(Packet::LinkStatisticsRx(p)),
                Err(e) => Err(e),
            },
            PacketType::RcChannelsPacked => match RcChannelsPacked::from_bytes(data) {
                Ok(p) => Ok(Packet::RCChannels(p)),
                Err(e) => Err(e),
            },
            PacketType::Gps => match Gps::from_bytes(data) {
                Ok(p) => Ok(Packet::Gps(p)),
                Err(e) => Err(e),
            },
            PacketType::GpsTime => match GpsTime::from_bytes(data) {
                Ok(p) => Ok(Packet::GpsTime(p)),
                Err(e) => Err(e),
            },
            PacketType::GpsExtended => match GpsExtended::from_bytes(data) {
                Ok(p) => Ok(Packet::GpsExtended(p)),
                Err(e) => Err(e),
            },
            PacketType::AirSpeed => match AirSpeed::from_bytes(data) {
                Ok(p) => Ok(Packet::AirSpeed(p)),
                Err(e) => Err(e),
            },
            PacketType::BaroAltitude => match BaroAltitude::from_bytes(data) {
                Ok(p) => Ok(Packet::BaroAltitude(p)),
                Err(e) => Err(e),
            },
            PacketType::BatterySensor => match Battery::from_bytes(data) {
                Ok(p) => Ok(Packet::Battery(p)),
                Err(e) => Err(e),
            },
            PacketType::FlightMode => match FlightMode::from_bytes(data) {
                Ok(p) => Ok(Packet::FlightMode(p)),
                Err(e) => Err(e),
            },
            PacketType::Rpm => match Rpm::from_bytes(data) {
                Ok(p) => Ok(Packet::Rpm(p)),
                Err(e) => Err(e),
            },
            PacketType::Temp => match Temp::from_bytes(data) {
                Ok(p) => Ok(Packet::Temp(p)),
                Err(e) => Err(e),
            },
            PacketType::Voltages => match Voltages::from_bytes(data) {
                Ok(p) => Ok(Packet::Voltages(p)),
                Err(e) => Err(e),
            },
            PacketType::VtxTelemetry => match VtxTelemetry::from_bytes(data) {
                Ok(p) => Ok(Packet::VtxTelemetry(p)),
                Err(e) => Err(e),
            },
            PacketType::Vario => match VariometerSensor::from_bytes(data) {
                Ok(p) => Ok(Packet::Vario(p)),
                Err(e) => Err(e),
            },
            PacketType::EspNow => match EspNow::from_bytes(data) {
                Ok(p) => Ok(Packet::EspNow(p)),
                Err(e) => Err(e),
            },
            PacketType::Heartbeat => match Heartbeat::from_bytes(data) {
                Ok(p) => Ok(Packet::Heartbeat(p)),
                Err(e) => Err(e),
            },
            PacketType::MavLinkFc => match MavLinkFc::from_bytes(data) {
                Ok(p) => Ok(Packet::MavLinkFc(p)),
                Err(e) => Err(e),
            },
            PacketType::MavlinkEnvelope => match MavlinkEnvelope::from_bytes(data) {
                Ok(p) => Ok(Packet::MavlinkEnvelope(p)),
                Err(e) => Err(e),
            },
            _ => Ok(Packet::NotImlemented(packet_type, data.len())),
        }
    }
}

/// The whole wire frame that encodes a record to a destination: address,
/// length byte, type tag, payload and the digest over type and payload.
pub open spec fn spec_frame_bytes<T: CrsfPacket>(dest: PacketAddress, packet: T) -> Seq<u8> {
    let payload = packet.spec_to_bytes();
    let tb = T::spec_packet_type().spec_to_u8();
    seq![dest.spec_to_u8(), (payload.len() + 2) as u8, tb] + payload + seq![
        crate::crc8::crc8_dvb_s2_of(seq![tb] + payload),
    ]
}

/// Assembles one complete outgoing frame: destination, length byte, type
/// tag, the record's payload and the frame checksum. Fails closed when
/// the record's payload cannot fit a frame or the buffer cannot hold the
/// whole frame.
pub fn write_packet_to_buffer<T: CrsfPacket>(
    buffer: &mut [u8],
    dest: PacketAddress,
    packet: &T,
) -> (r: Result<usize, CrsfParsingError>)
    ensures
        ({
            let frame = spec_frame_bytes(dest, *packet);
            let payload = packet.spec_to_bytes();
            if payload.len() > 60 {
                &&& r == Err::<usize, CrsfParsingError>(CrsfParsingError::BufferOverflow)
                &&& final(buffer)@ == old(buffer)@
            } else if old(buffer)@.len() < payload.len() + 4 {
                &&& r == Err::<usize, CrsfParsingError>(CrsfParsingError::BufferOverflow)
                &&& final(buffer)@ == old(buffer)@
            } else {
                &&& r == Ok::<usize, CrsfParsingError>((payload.len() + 4) as usize)
                &&& final(buffer)@ == frame + old(buffer)@.skip(payload.len() + 4 as int)
                &&& frame.len() == payload.len() + 4
            }
        }),
{
    let mut payload_buf = [0u8; 60];
    let payload_size = match packet.to_bytes(&mut payload_buf) {
        Ok(n) => n,
        Err(e) => {
            return Err(e);
        },
    };
    let buf_len = buffer.len();
    if buf_len < 4 || buf_len - 4 < payload_size {
        return Err(CrsfParsingError::BufferOverflow);
    }
    let total_frame_size = payload_size + 4;
    let length_byte = (payload_size + 2) as u8;
    buffer[0] = dest.to_u8();
    buffer[1] = length_byte;
    buffer[2] = T::packet_type().to_u8();
    let mut i: usize = 0;
    while i < payload_size
        invariant
            0 <= i <= payload_size,
            payload_size == packet.spec_to_bytes().len(),
            payload_size <= 60,
            payload_buf@.subrange(0, payload_size as int) == packet.spec_to_bytes(),
            buffer@.len() == old(buffer)@.len(),
            buffer@.len() == buf_len,
            4 + payload_size <= buf_len,
            buffer@[0] == dest.spec_to_u8(),
            buffer@[1] == (packet.spec_to_bytes().len() + 2) as u8,
            buffer@[2] == T::spec_packet_type().spec_to_u8(),
            forall|m: int| 0 <= m < i ==> buffer@[3 + m] == packet.spec_to_bytes()[m],
            forall|m: int| 3 + i <= m < buffer@.len() ==> buffer@[m] == old(buffer)@[m],
        decreases payload_size - i,
    {
        buffer[3 + i] = payload_buf[i];
        i += 1;
    }
    let calculated_crc = crate::crc8::crc8_dvb_s2(buffer, 2, 3 + payload_size);
    proof {
        assert(buffer@.subrange(2, 3 + payload_size as int) =~= seq![
            T::spec_packet_type().spec_to_u8(),
        ] + packet.spec_to_bytes());
    }
    buffer[3 + payload_size] = calculated_crc;
    proof {
        assert(buffer@ =~= spec_frame_bytes(dest, *packet) + old(buffer)@.skip(
            packet.spec_to_bytes().len() + 4 as int,
        ));
    }
    Ok(total_frame_size)
}



/// Two decoded packets that stand for the same record: equal in every
/// field, with list contents compared by value.
pub open spec fn packet_models(a: Packet, b: Packet) -> bool {
    match (a, b) {
        (Packet::Rpm(x), Packet::Rpm(y)) => x.rpm_source_id == y.rpm_source_id && x.rpm_values@
            == y.rpm_values@,
        (Packet::Temp(x), Packet::Temp(y)) => x.temp_source_id == y.temp_source_id
            && x.temperatures@ == y.temperatures@,
        (Packet::Voltages(x), Packet::Voltages(y)) => x.voltage_source_id == y.voltage_source_id
            && x.voltage_values@ == y.voltage_values@,
        (Packet::MavlinkEnvelope(x), Packet::MavlinkEnvelope(y)) => x.total_chunks == y.total_chunks
            && x.current_chunk == y.current_chunk && x.data@ == y.data@,
        (Packet::FlightMode(x), Packet::FlightMode(y)) => x.flight_mode@ == y.flight_mode@,
        _ => a == b,
    }
}

/// The whole wire frame that encodes a decoded packet's record to a
/// destination.
pub open spec fn spec_packet_wire(dest: PacketAddress, p: Packet) -> Seq<u8> {
    match p {
        Packet::LinkStatistics(x) => spec_frame_bytes(dest, x),
        Packet::LinkStatisticsRx(x) => spec_frame_bytes(dest, x),
        Packet::LinkStatisticsTx(x) => spec_frame_bytes(dest, x),
        Packet::RCChannels(x) => spec_frame_bytes(dest, x),
        Packet::Gps(x) => spec_frame_bytes(dest, x),
        Packet::GpsTime(x) => spec_frame_bytes(dest, x),
        Packet::GpsExtended(x) => spec_frame_bytes(dest, x),
        Packet::Vario(x) => spec_frame_bytes(dest, x),
        Packet::Battery(x) => spec_frame_bytes(dest, x),
        Packet::AirSpeed(x) => spec_frame_bytes(dest, x),
        Packet::BaroAltitude(x) => spec_frame_bytes(dest, x),
        Packet::Rpm(x) => spec_frame_bytes(dest, x),
        Packet::Temp(x) => spec_frame_bytes(dest, x),
        Packet::Voltages(x) => spec_frame_bytes(dest, x),
        Packet::VtxTelemetry(x) => spec_frame_bytes(dest, x),
        Packet::FlightMode(x) => spec_frame_bytes(dest, x),
        Packet::Heartbeat(x) => spec_frame_bytes(dest, x),
        Packet::EspNow(x) => spec_frame_bytes(dest, x),
        Packet::MavlinkEnvelope(x) => spec_frame_bytes(dest, x),
        Packet::MavLinkFc(x) => spec_frame_bytes(dest, x),
        Packet::Remote(x) => spec_frame_bytes(dest, x),
        Packet::NotImlemented(_, _) => Seq::empty(),
    }
}

/// A decoded packet whose record the dispatch registry can bring back:
/// one of the registered kinds, with its fields inside the ranges its
/// wire fields can carry and its payload small enough for one frame.
pub open spec fn packet_encodable(p: Packet) -> bool {
    match p {
        Packet::Battery(x) => x.capacity_used < 0x100_0000,
        Packet::RCChannels(x) => forall|i: int| 0 <= i < 16 ==> x.0@[i] <= 0x7FF,
        Packet::VtxTelemetry(x) => x.pitmode_control <= 3 && x.pitmode_switch <= 15,
        Packet::Rpm(x) => 1 <= x.rpm_values@.len() <= 19 && forall|i: int|
            0 <= i < x.rpm_values@.len() ==> -0x80_0000 <= #[trigger] x.rpm_values@[i] < 0x80_0000,
        Packet::Temp(x) => 1 <= x.temperatures@.len() <= 20,
        Packet::Voltages(x) => 1 <= x.voltage_values@.len() <= 29,
        Packet::MavlinkEnvelope(x) => x.total_chunks <= 15 && x.current_chunk <= 15 && x.data@.len()
            <= 57,
        Packet::FlightMode(x) => vstd::utf8::encode_utf8(x.flight_mode@).len() <= 58 && forall|
            i: int,
        |
            0 <= i < vstd::utf8::encode_utf8(x.flight_mode@).len() ==> #[trigger] vstd::utf8::encode_utf8(
                x.flight_mode@,
            )[i] != 0,
        Packet::Remote(_) => false,
        Packet::NotImlemented(_, _) => false,
        _ => true,
    }
}

/// Every known address byte maps back to its address.
pub proof fn lemma_address_byte_inverse(a: PacketAddress)
    ensures
        PacketAddress::spec_try_from_u8(a.spec_to_u8()) == Some(a),
{
}

/// The frame an encodable record produces is well formed on the wire.
pub proof fn lemma_frame_well_formed<T: CrsfPacket>(dest: PacketAddress, packet: T)
    requires
        packet.spec_to_bytes().len() <= 59,
    ensures
        ({
            let f = spec_frame_bytes(dest, packet);
            &&& f.len() == packet.spec_to_bytes().len() + 4
            &&& crate::parser::valid_frame(f)
            &&& f[2] == T::spec_packet_type().spec_to_u8()
            &&& f.subrange(3, f.len() - 1) == packet.spec_to_bytes()
        }),
{
    lemma_address_byte_inverse(dest);
    let w = packet.spec_to_bytes();
    let f = spec_frame_bytes(dest, packet);
    assert(f.subrange(2, f.len() - 1) =~= seq![T::spec_packet_type().spec_to_u8()] + w);
    assert(f.subrange(3, f.len() - 1) =~= w);
    assert(f[1] == (w.len() + 2) as u8);
    assert(f[1] + 2 == f.len());
}

/// Frame round trip: a record of any registered kind, encoded to a frame
/// and fed byte by byte through the frame state machine, is consumed
/// silently until its last byte, completes as exactly that frame, and
/// dispatching the frame decodes the record that was encoded.
#[verifier::rlimit(100)]
pub proof fn lemma_encode_decode_round_trip(
    machine: crate::parser::CrsfParser,
    dest: PacketAddress,
    p: Packet,
    r: Result<Packet, CrsfParsingError>,
)
    requires
        machine.wf(),
        machine.state == crate::parser::State::AwaitingSync,
        packet_encodable(p),
        spec_parse_post(
            spec_packet_wire(dest, p)[2],
            spec_packet_wire(dest, p).subrange(3, spec_packet_wire(dest, p).len() - 1),
            r,
        ),
    ensures
        crate::parser::valid_frame(spec_packet_wire(dest, p)),
        crate::parser::spec_feed_outs(machine, spec_packet_wire(dest, p)).len()
            == spec_packet_wire(dest, p).len(),
        forall|k: int|
            0 <= k < spec_packet_wire(dest, p).len() - 1
                ==> crate::parser::spec_feed_outs(machine, spec_packet_wire(dest, p))[k]
                == crate::parser::StepOut::Incomplete,
        crate::parser::spec_feed_outs(machine, spec_packet_wire(dest, p)).last()
            == crate::parser::StepOut::Complete(spec_packet_wire(dest, p)),
        r matches Ok(q) && packet_models(q, p),
{
    let f = spec_packet_wire(dest, p);
    match p {
        Packet::LinkStatistics(x) => {
            lemma_frame_well_formed(dest, x);
            match r {
                Ok(Packet::LinkStatistics(q)) => lemma_link_statistics_round_trip(x, Ok(q)),
                Err(e) => lemma_link_statistics_round_trip(x, Err(e)),
                _ => assert(false),
            }
        },
        Packet::LinkStatisticsRx(x) => {
            lemma_frame_well_formed(dest, x);
            match r {
                Ok(Packet::LinkStatisticsRx(q)) => lemma_link_statistics_rx_round_trip(x, Ok(q)),
                Err(e) => lemma_link_statistics_rx_round_trip(x, Err(e)),
                _ => assert(false),
            }
        },
        Packet::LinkStatisticsTx(x) => {
            lemma_frame_well_formed(dest, x);
            match r {
                Ok(Packet::LinkStatisticsTx(q)) => lemma_link_statistics_tx_round_trip(x, Ok(q)),
                Err(e) => lemma_link_statistics_tx_round_trip(x, Err(e)),
                _ => assert(false),
            }
        },
        Packet::RCChannels(x) => {
            lemma_frame_well_formed(dest, x);
            match r {
                Ok(Packet::RCChannels(q)) => lemma_rc_channels_round_trip(x, Ok(q)),
                Err(e) => lemma_rc_channels_round_trip(x, Err(e)),
                _ => assert(false),
            }
        },
        Packet::Gps(x) => {
            lemma_frame_well_formed(dest, x);
            match r {
                Ok(Packet::Gps(q)) => lemma_gps_round_trip(x, Ok(q)),
                Err(e) => lemma_gps_round_trip(x, Err(e)),
                _ => assert(false),
            }
        },
        Packet::GpsTime(x) => {
            lemma_frame_well_formed(dest, x);
            match r {
                Ok(Packet::GpsTime(q)) => lemma_gps_time_round_trip(x, Ok(q)),
                Err(e) => lemma_gps_time_round_trip(x, Err(e)),
                _ => assert(false),
            }
        },
        Packet::GpsExtended(x) => {
            lemma_frame_well_formed(dest, x);
            match r {
                Ok(Packet::GpsExtended(q)) => lemma_gps_extended_round_trip(x, Ok(q)),
                Err(e) => lemma_gps_extended_round_trip(x, Err(e)),
                _ => assert(false),
            }
        },
        Packet::Vario(x) => {
            lemma_frame_well_formed(dest, x);
            match r {
                Ok(Packet::Vario(q)) => lemma_vario_round_trip(x, Ok(q)),
                Err(e) => lemma_vario_round_trip(x, Err(e)),
                _ => assert(false),
            }
        },
        Packet::Battery(x) => {
            lemma_frame_well_formed(dest, x);
            match r {
                Ok(Packet::Battery(q)) => lemma_battery_round_trip(x, Ok(q)),
                Err(e) => lemma_battery_round_trip(x, Err(e)),
                _ => assert(false),
            }
        },
        Packet::AirSpeed(x) => {
            lemma_frame_well_formed(dest, x);
            match r {
                Ok(Packet::AirSpeed(q)) => lemma_airspeed_round_trip(x, Ok(q)),
                Err(e) => lemma_airspeed_round_trip(x, Err(e)),
                _ => assert(false),
            }
        },
        Packet::BaroAltitude(x) => {
            lemma_frame_well_formed(dest, x);
            match r {
                Ok(Packet::BaroAltitude(q)) => lemma_baro_altitude_round_trip(x, Ok(q)),
                Err(e) => lemma_baro_altitude_round_trip(x, Err(e)),
                _ => assert(false),
            }
        },
        Packet::Rpm(x) => {
            proof_rpm_payload_len(x);
            lemma_frame_well_formed(dest, x);
            match r {
                Ok(Packet::Rpm(q)) => lemma_rpm_round_trip(x, Ok(q)),
                Err(e) => lemma_rpm_round_trip(x, Err(e)),
                _ => assert(false),
            }
        },
        Packet::Temp(x) => {
            temp::lemma_temp_values_bytes_len(x.temperatures@);
            lemma_frame_well_formed(dest, x);
            match r {
                Ok(Packet::Temp(q)) => lemma_temp_round_trip(x, Ok(q)),
                Err(e) => lemma_temp_round_trip(x, Err(e)),
                _ => assert(false),
            }
        },
        Packet::Voltages(x) => {
            voltages::lemma_voltage_values_bytes_len(x.voltage_values@);
            lemma_frame_well_formed(dest, x);
            match r {
                Ok(Packet::Voltages(q)) => lemma_voltages_round_trip(x, Ok(q)),
                Err(e) => lemma_voltages_round_trip(x, Err(e)),
                _ => assert(false),
            }
        },
        Packet::VtxTelemetry(x) => {
            lemma_frame_well_formed(dest, x);
            match r {
                Ok(Packet::VtxTelemetry(q)) => lemma_vtx_telemetry_round_trip(x, Ok(q)),
                Err(e) => lemma_vtx_telemetry_round_trip(x, Err(e)),
                _ => assert(false),
            }
        },
        Packet::FlightMode(x) => {
            lemma_frame_well_formed(dest, x);
            match r {
                Ok(Packet::FlightMode(q)) => lemma_flight_mode_round_trip(x, Ok(q)),
                Err(e) => lemma_flight_mode_round_trip(x, Err(e)),
                _ => assert(false),
            }
        },
        Packet::Heartbeat(x) => {
            lemma_frame_well_formed(dest, x);
            match r {
                Ok(Packet::Heartbeat(q)) => lemma_heartbeat_round_trip(x, Ok(q)),
                Err(e) => lemma_heartbeat_round_trip(x, Err(e)),
                _ => assert(false),
            }
        },
        Packet::EspNow(x) => {
            lemma_frame_well_formed(dest, x);
            match r {
                Ok(Packet::EspNow(q)) => lemma_esp_now_round_trip(x, Ok(q)),
                Err(e) => lemma_esp_now_round_trip(x, Err(e)),
                _ => assert(false),
            }
        },
        Packet::MavlinkEnvelope(x) => {
            lemma_frame_well_formed(dest, x);
            match r {
                Ok(Packet::MavlinkEnvelope(q)) => lemma_mavlink_envelope_round_trip(x, Ok(q)),
                Err(e) => lemma_mavlink_envelope_round_trip(x, Err(e)),
                _ => assert(false),
            }
        },
        Packet::MavLinkFc(x) => {
            lemma_frame_well_formed(dest, x);
            match r {
                Ok(Packet::MavLinkFc(q)) => lemma_mavlink_fc_round_trip(x, Ok(q)),
                Err(e) => lemma_mavlink_fc_round_trip(x, Err(e)),
                _ => assert(false),
            }
        },
        Packet::Remote(_) => {
            assert(false);
        },
        Packet::NotImlemented(_, _) => {
            assert(false);
        },
    }
    crate::parser::lemma_frame_accepted(machine, f);
}

/// The payload of an encodable RPM record fits one frame.
proof fn proof_rpm_payload_len(x: Rpm)
    requires
        x.rpm_values@.len() <= 19,
    ensures
        x.spec_to_bytes().len() <= 58,
{
    rpm::lemma_rpm_values_bytes_len(x.rpm_values@);
}

} // verus!
