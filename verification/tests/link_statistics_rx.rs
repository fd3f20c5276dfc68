use uf_crsf::packets::CrsfPacket;
use uf_crsf::packets::LinkStatisticsRx;


#[test]
fn test_link_statistics_rx_to_bytes() {
    let link_statistics_rx = LinkStatisticsRx {
        rssi_db: 100,
        rssi_percent: 75,
        link_quality: 90,
        snr: -10,
        rf_power_db: 20,
    };

    let mut buffer = [0u8; LinkStatisticsRx::MIN_PAYLOAD_SIZE];
    let _ = link_statistics_rx.to_bytes(&mut buffer);

    let expected_bytes: [u8; LinkStatisticsRx::MIN_PAYLOAD_SIZE] = [100, 75, 90, 246, 20];

    assert_eq!(buffer, expected_bytes);
}

#[test]
fn test_link_statistics_rx_from_bytes() {
    let data: [u8; LinkStatisticsRx::MIN_PAYLOAD_SIZE] = [100, 75, 90, 246, 20];

    let link_statistics_rx = LinkStatisticsRx::from_bytes(&data).unwrap();

    assert_eq!(
        link_statistics_rx,
        LinkStatisticsRx {
            rssi_db: 100,
            rssi_percent: 75,
            link_quality: 90,
            snr: -10,
            rf_power_db: 20,
        }
    );
}

#[test]
fn test_link_statistics_rx_round_trip() {
    let link_statistics_rx = LinkStatisticsRx {
        rssi_db: 100,
        rssi_percent: 75,
        link_quality: 90,
        snr: -10,
        rf_power_db: 20,
    };

    let mut buffer = [0u8; LinkStatisticsRx::MIN_PAYLOAD_SIZE];
    link_statistics_rx.to_bytes(&mut buffer).unwrap();

    let round_trip_link_statistics_rx = LinkStatisticsRx::from_bytes(&buffer).unwrap();

    assert_eq!(link_statistics_rx, round_trip_link_statistics_rx);
}

#[test]
fn link_statistics_rx_test_edge_cases() {
    let link_statistics_rx = LinkStatisticsRx {
        rssi_db: 255,
        rssi_percent: 100,
        link_quality: 100,
        snr: -128,
        rf_power_db: 50,
    };

    let mut buffer = [0u8; LinkStatisticsRx::MIN_PAYLOAD_SIZE];
    link_statistics_rx.to_bytes(&mut buffer).unwrap();
    let round_trip_link_statistics_rx = LinkStatisticsRx::from_bytes(&buffer).unwrap();
    assert_eq!(link_statistics_rx, round_trip_link_statistics_rx);
}
