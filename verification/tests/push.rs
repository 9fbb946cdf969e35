use agent_rs::dispatch::{handle, on_delivery, Action, WORKERS};
use agent_rs::parser::{parser, CHTHeader, DecodeError, Mac, StatSta, WifiFlags};
use agent_rs::tsdb::push::{push, Influx, DATABASE};
use influx_db_client::{Point, Value};

fn station(seed: u8) -> StatSta {
    StatSta {
        mac: Mac::from(&[seed, 1, 2, 3, 4, 5][..]),
        snr: 40,
        signal: -60,
        noise: -95,
        rx_packets: 256 + seed as u32,
        tx_packets: 512,
        tx_rate: 100_000,
        tx_mcs: -1,
        tx_flags: WifiFlags::from_bits(0x0d).unwrap(),
        tx_mhz: 80,
        tx_vht_nss: 2,
        rx_rate: 60_000,
        rx_mcs: 7,
        rx_flags: WifiFlags::from_bits(0x03).unwrap(),
        rx_mhz: 40,
        rx_vht_nss: 1,
        rx_bytes: 1_000_000,
        tx_bytes: 2_000_000,
        rx_retries: 5,
        rx_failed: u32::MAX,
        timestamp: 1_600_000_000 + seed as i64,
    }
}

fn integer(point: &Point, name: &str) -> i64 {
    match point.fields.get(name) {
        Some(Value::Integer(value)) => *value,
        other => panic!("field {} holds {:?}", name, other),
    }
}

fn check_attributes(point: &Point, sta: &StatSta) {
    assert_eq!(point.measurement, "StatSta");
    assert!(point.tags.is_empty());
    assert_eq!(point.timestamp, Some(sta.timestamp));
    assert_eq!(integer(point, "snr"), 40);
    assert_eq!(integer(point, "signal"), -60);
    assert_eq!(integer(point, "noise"), -95);
    assert_eq!(integer(point, "rx_packets"), sta.rx_packets as i64);
    assert_eq!(integer(point, "tx_packets"), 512);
    assert_eq!(integer(point, "tx_rate"), 100_000);
    assert_eq!(integer(point, "tx_mcs"), -1);
    assert_eq!(integer(point, "tx_flags"), 13);
    assert_eq!(integer(point, "tx_mhz"), 80);
    assert_eq!(integer(point, "tx_vht_nss"), 2);
    assert_eq!(integer(point, "rx_rate"), 60_000);
    assert_eq!(integer(point, "rx_mcs"), 7);
    assert_eq!(integer(point, "rx_flags"), 3);
    assert_eq!(integer(point, "rx_mhz"), 40);
    assert_eq!(integer(point, "rx_vht_nss"), 1);
    assert_eq!(integer(point, "rx_bytes"), 1_000_000);
    assert_eq!(integer(point, "tx_bytes"), 2_000_000);
    assert_eq!(integer(point, "rx_retries"), 5);
    assert_eq!(integer(point, "rx_failed"), 4_294_967_295);
    assert!(!point.fields.contains_key("mac"));
    assert!(!point.fields.contains_key("timestamp"));
}

#[test]
fn point_of_a_record_holds_each_numeric_attribute() {
    let sta = station(0);
    let point = Influx::push(&sta);
    check_attributes(&point, &sta);
    assert_eq!(point.fields.len(), 19);
    assert!(!point.fields.contains_key("cht_id"));
}

#[test]
fn written_point_carries_the_collector() {
    let header = CHTHeader { event_type: 0x1cba, len: 0, cht_id: 0xdead_beef, data: None };
    let sta = station(3);
    let point = push(&header, &sta);
    check_attributes(&point, &sta);
    assert_eq!(integer(&point, "cht_id"), 0xdead_beef);
    assert_eq!(point.fields.len(), 20);
}

#[test]
fn point_time_may_lie_before_the_epoch() {
    let mut sta = station(0);
    sta.timestamp = -86_400;
    let point = Influx::push(&sta);
    assert_eq!(point.timestamp, Some(-86_400));
}

#[test]
fn two_records_give_two_writes_with_the_collector() {
    let header = CHTHeader {
        event_type: 0x1cba,
        len: 125,
        cht_id: 77,
        data: Some(vec![station(1), station(2)]),
    };
    let points = handle(&header);
    assert_eq!(points.len(), 2);
    check_attributes(&points[0], &station(1));
    check_attributes(&points[1], &station(2));
    assert_eq!(integer(&points[0], "cht_id"), 77);
    assert_eq!(integer(&points[1], "cht_id"), 77);
    assert_eq!(integer(&points[0], "rx_packets"), 257);
    assert_eq!(integer(&points[1], "rx_packets"), 258);
}

#[test]
fn frame_without_records_gives_no_write() {
    let other = CHTHeader { event_type: 1, len: 0, cht_id: 77, data: None };
    assert!(handle(&other).is_empty());
    let empty = CHTHeader { event_type: 0x1cba, len: 0, cht_id: 77, data: Some(Vec::new()) };
    assert!(handle(&empty).is_empty());
}

#[test]
fn duplicate_records_give_equal_writes() {
    let header = CHTHeader {
        event_type: 0x1cba,
        len: 0,
        cht_id: 5,
        data: Some(vec![station(9), station(9)]),
    };
    let points = handle(&header);
    assert_eq!(points.len(), 2);
    assert_eq!(points[0], points[1]);
}

fn frame_of_two() -> Vec<u8> {
    let mut bytes = vec![0x1c, 0xba, 0x00, 0x00, 0x00, 0x7d, 0x00, 0x00, 0x00, 0x4d, 0x02];
    for seed in [1u8, 2] {
        bytes.extend_from_slice(&[seed, 1, 2, 3, 4, 5, 40, 0xc4, 0xa1]);
        bytes.extend_from_slice(&(256 + seed as u32).to_be_bytes());
        bytes.extend_from_slice(&512u32.to_be_bytes());
        bytes.extend_from_slice(&100_000u32.to_be_bytes());
        bytes.extend_from_slice(&[0xff, 0x0d, 80, 2]);
        bytes.extend_from_slice(&60_000u32.to_be_bytes());
        bytes.extend_from_slice(&[7, 0x03, 40, 1]);
        bytes.extend_from_slice(&1_000_000u32.to_be_bytes());
        bytes.extend_from_slice(&2_000_000u32.to_be_bytes());
        bytes.extend_from_slice(&5u32.to_be_bytes());
        bytes.extend_from_slice(&u32::MAX.to_be_bytes());
        bytes.extend_from_slice(&((1_600_000_000i64 + seed as i64) * 1000 + 999).to_be_bytes());
    }
    bytes
}

#[test]
fn delivery_is_handed_over_and_then_acknowledged() {
    let bytes = frame_of_two();
    let actions = on_delivery(&bytes, 42);
    assert_eq!(actions.len(), 2);
    match &actions[0] {
        Action::Dispatch(header) => {
            assert_eq!(header.cht_id, 77);
            assert_eq!(header.data, Some(vec![station(1), station(2)]));
            assert_eq!(header, &parser(&bytes).unwrap().1);
            let points = handle(header);
            assert_eq!(points.len(), 2);
            assert_eq!(integer(&points[0], "cht_id"), 77);
            assert_eq!(integer(&points[1], "cht_id"), 77);
        }
        other => panic!("first step is {:?}", other),
    }
    assert_eq!(actions[1], Action::Ack(42));
}

#[test]
fn delivery_with_trailing_bytes_reports_them_first() {
    let mut bytes = frame_of_two();
    bytes.extend_from_slice(&[1, 2, 3]);
    let actions = on_delivery(&bytes, 7);
    assert_eq!(actions.len(), 3);
    assert_eq!(actions[0], Action::Leftover(3));
    assert!(matches!(&actions[1], Action::Dispatch(header) if header.cht_id == 77));
    assert_eq!(actions[2], Action::Ack(7));
}

#[test]
fn delivery_that_does_not_decode_is_dropped_and_acknowledged() {
    let bytes = frame_of_two();
    assert_eq!(
        on_delivery(&bytes[..bytes.len() - 1], u64::MAX),
        vec![Action::Reject(DecodeError::Incomplete), Action::Ack(u64::MAX)]
    );
    let mut bad = bytes.clone();
    bad[11 + 22] = 0x1d;
    assert_eq!(
        on_delivery(&bad, 0),
        vec![Action::Reject(DecodeError::InvalidFlags), Action::Ack(0)]
    );
    assert_eq!(
        on_delivery(&[], 1),
        vec![Action::Reject(DecodeError::Incomplete), Action::Ack(1)]
    );
}

#[test]
fn delivery_of_another_event_is_handed_over_without_records() {
    let bytes = [0x00u8, 0x02, 0x00, 0x00, 0x00, 0x00, 0x00, 0x00, 0x00, 0x09];
    assert_eq!(
        on_delivery(&bytes, 3),
        vec![
            Action::Dispatch(CHTHeader { event_type: 2, len: 0, cht_id: 9, data: None }),
            Action::Ack(3)
        ]
    );
}

#[test]
fn store_and_pool_defaults() {
    assert_eq!(DATABASE, "agent-rs");
    assert_eq!(WORKERS, 2);
}
