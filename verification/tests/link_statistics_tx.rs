use uf_crsf::packets::CrsfPacket;
use uf_crsf::packets::LinkStatisticsTx;


#[test]
fn test_link_statistics_tx_to_bytes() {
    let link_statistics_tx = LinkStatisticsTx {
        rssi_db: 100,
        rssi_percent: 75,
        link_quality: 90,
        snr: -10,
        rf_power_db: 20,
        fps: 50,
    };

    let mut buffer = [0u8; LinkStatisticsTx::MIN_PAYLOAD_SIZE];
    link_statistics_tx.to_bytes(&mut buffer).unwrap();

    let expected_bytes: [u8; LinkStatisticsTx::MIN_PAYLOAD_SIZE] = [100, 75, 90, 246, 20, 50];

    assert_eq!(buffer, expected_bytes);
}

#[test]
fn test_link_statistics_tx_from_bytes() {
    let data: [u8; LinkStatisticsTx::MIN_PAYLOAD_SIZE] = [100, 75, 90, 246, 20, 50];

    let link_statistics_tx = LinkStatisticsTx::from_bytes(&data).unwrap();

    assert_eq!(
        link_statistics_tx,
        LinkStatisticsTx {
            rssi_db: 100,
            rssi_percent: 75,
            link_quality: 90,
            snr: -10,
            rf_power_db: 20,
            fps: 50,
        }
    );
}

#[test]
fn test_link_statistics_tx_round_trip() {
    let link_statistics_tx = LinkStatisticsTx {
        rssi_db: 100,
        rssi_percent: 75,
        link_quality: 90,
        snr: -10,
        rf_power_db: 20,
        fps: 50,
    };

    let mut buffer = [0u8; LinkStatisticsTx::MIN_PAYLOAD_SIZE];
    link_statistics_tx.to_bytes(&mut buffer).unwrap();

    let round_trip_link_statistics_tx = LinkStatisticsTx::from_bytes(&buffer).unwrap();

    assert_eq!(link_statistics_tx, round_trip_link_statistics_tx);
}

#[test]
fn link_statistics_tx_test_edge_cases() {
    let link_statistics_tx = LinkStatisticsTx {
        rssi_db: 255,
        rssi_percent: 100,
        link_quality: 100,
        snr: -128,
        rf_power_db: 50,
        fps: 255,
    };

    let mut buffer = [0u8; LinkStatisticsTx::MIN_PAYLOAD_SIZE];
    link_statistics_tx.to_bytes(&mut buffer).unwrap();
    let round_trip_link_statistics_tx = LinkStatisticsTx::from_bytes(&buffer).unwrap();
    assert_eq!(link_statistics_tx, round_trip_link_statistics_tx);
}
