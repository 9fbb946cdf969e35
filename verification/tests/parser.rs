use agent_rs::parser::{
    parser, stat_sta, vec_stat_sta, whole_seconds, CHTHeader, DecodeError, Mac, StatSta,
    WifiFlags, HEADER_LEN, IS_40_MHZ, IS_HT, IS_SHORT_GI, IS_VHT, STATION_REPORT, STAT_STA_LEN,
    WIFI_FLAGS_MASK,
};

/// One station record on the wire, with the given flags bytes.
fn record(tx_flags: u8, rx_flags: u8) -> Vec<u8> {
    let mut bytes = vec![0xde, 0xad, 0xbe, 0xef, 0x00, 0x01];
    bytes.push(0x28);
    bytes.push(0xc4);
    bytes.push(0xa1);
    bytes.extend_from_slice(&[0x00, 0x00, 0x01, 0x00]);
    bytes.extend_from_slice(&[0x00, 0x00, 0x02, 0x00]);
    bytes.extend_from_slice(&[0x00, 0x01, 0x86, 0xa0]);
    bytes.push(0xff);
    bytes.push(tx_flags);
    bytes.push(0x50);
    bytes.push(0x02);
    bytes.extend_from_slice(&[0x00, 0x00, 0xea, 0x60]);
    bytes.push(0x07);
    bytes.push(rx_flags);
    bytes.push(0x28);
    bytes.push(0x01);
    bytes.extend_from_slice(&[0x00, 0x0f, 0x42, 0x40]);
    bytes.extend_from_slice(&[0x00, 0x1e, 0x84, 0x80]);
    bytes.extend_from_slice(&[0x00, 0x00, 0x00, 0x05]);
    bytes.extend_from_slice(&[0xff, 0xff, 0xff, 0xff]);
    bytes.extend_from_slice(&[0x00, 0x00, 0x01, 0x74, 0x87, 0x6e, 0x80, 0x7b]);
    bytes
}

/// The record that `record(tx_flags, rx_flags)` holds.
fn station(tx_flags: u8, rx_flags: u8) -> StatSta {
    StatSta {
        mac: Mac::from(&[0xde, 0xad, 0xbe, 0xef, 0x00, 0x01][..]),
        snr: 40,
        signal: -60,
        noise: -95,
        rx_packets: 256,
        tx_packets: 512,
        tx_rate: 100_000,
        tx_mcs: -1,
        tx_flags: WifiFlags::from_bits(tx_flags).unwrap(),
        tx_mhz: 80,
        tx_vht_nss: 2,
        rx_rate: 60_000,
        rx_mcs: 7,
        rx_flags: WifiFlags::from_bits(rx_flags).unwrap(),
        rx_mhz: 40,
        rx_vht_nss: 1,
        rx_bytes: 1_000_000,
        tx_bytes: 2_000_000,
        rx_retries: 5,
        rx_failed: u32::MAX,
        timestamp: 1_600_000_000,
    }
}

/// A station report from collector 1 with the given count byte and body.
fn report(count: u8, body: &[u8]) -> Vec<u8> {
    let mut bytes = vec![0x1c, 0xba, 0x00, 0x00, 0x00, 0x0a, 0x00, 0x00, 0x00, 0x01, count];
    bytes.extend_from_slice(body);
    bytes
}

#[test]
fn layout_constants() {
    assert_eq!(STATION_REPORT, 0x1cba);
    assert_eq!(HEADER_LEN, 10);
    assert_eq!(STAT_STA_LEN, 57);
    assert_eq!(record(0, 0).len(), STAT_STA_LEN);
    assert_eq!(WIFI_FLAGS_MASK, 0b0000_1111);
    assert_eq!(IS_40_MHZ, 0b0000_0001);
    assert_eq!(IS_SHORT_GI, 0b0000_0010);
    assert_eq!(IS_HT, 0b0000_0100);
    assert_eq!(IS_VHT, 0b0000_1000);
}

#[test]
fn header_of_other_event_takes_ten_bytes() {
    let bytes = [0x00u8, 0x01, 0x00, 0x00, 0x00, 0x0a, 0x00, 0x00, 0x00, 0x07, 0x09];
    let (rest, header) = parser(&bytes).unwrap();
    assert_eq!(
        header,
        CHTHeader { event_type: 1, len: 10, cht_id: 7, data: None }
    );
    assert_eq!(rest, &[0x09u8][..]);
}

#[test]
fn other_event_ignores_what_follows_the_header() {
    let mut bytes = vec![0x1c, 0xbb, 0xff, 0xff, 0xff, 0xff, 0x01, 0x02, 0x03, 0x04];
    bytes.extend_from_slice(&record(0xf0, 0xf0));
    let (rest, header) = parser(&bytes).unwrap();
    assert_eq!(header.event_type, 0x1cbb);
    assert_eq!(header.len, u32::MAX);
    assert_eq!(header.cht_id, 0x0102_0304);
    assert_eq!(header.data, None);
    assert_eq!(bytes.len() - rest.len(), 10);
    assert_eq!(rest, &record(0xf0, 0xf0)[..]);
}

#[test]
fn other_event_of_exactly_ten_bytes() {
    let bytes = [0u8; 10];
    let (rest, header) = parser(&bytes).unwrap();
    assert_eq!(header, CHTHeader { event_type: 0, len: 0, cht_id: 0, data: None });
    assert!(rest.is_empty());
}

#[test]
fn short_header_is_incomplete() {
    assert_eq!(parser(&[]), Err(DecodeError::Incomplete));
    assert_eq!(parser(&[0x1c, 0xba, 0x00]), Err(DecodeError::Incomplete));
    assert_eq!(parser(&[0u8; 9]), Err(DecodeError::Incomplete));
}

#[test]
fn station_report_of_one_record() {
    let mut station_bytes = record(0x0d, 0x03);
    station_bytes.extend_from_slice(&[0xaa, 0xbb, 0xcc, 0xdd]);
    assert_eq!(station_bytes.len(), 61);
    let bytes = report(1, &station_bytes);
    let (rest, header) = parser(&bytes).unwrap();
    assert_eq!(header.event_type, 0x1cba);
    assert_eq!(header.len, 10);
    assert_eq!(header.cht_id, 1);
    let stations = header.data.unwrap();
    assert_eq!(stations.len(), 1);
    assert_eq!(stations[0], station(0x0d, 0x03));
    assert_eq!(stations[0].mac.bytes(), &vec![0xde, 0xad, 0xbe, 0xef, 0x00, 0x01]);
    assert_eq!(bytes.len() - rest.len(), 10 + 1 + 57);
    assert_eq!(rest, &[0xaa, 0xbb, 0xcc, 0xdd][..]);
}

#[test]
fn station_report_takes_count_times_record_size() {
    for count in [0u8, 1, 2, 3, 17] {
        let mut body = Vec::new();
        for k in 0..count {
            body.extend_from_slice(&record(k & 0x0f, (k + 1) & 0x0f));
        }
        body.push(0x99);
        let bytes = report(count, &body);
        let (rest, header) = parser(&bytes).unwrap();
        let stations = header.data.unwrap();
        assert_eq!(stations.len(), count as usize);
        assert_eq!(bytes.len() - rest.len(), 10 + 1 + 57 * count as usize);
        assert_eq!(rest, &[0x99u8][..]);
        for k in 0..count {
            assert_eq!(stations[k as usize], station(k & 0x0f, (k + 1) & 0x0f));
        }
    }
}

#[test]
fn station_report_of_255_records() {
    let mut body = Vec::new();
    for _ in 0..255 {
        body.extend_from_slice(&record(0x0f, 0x00));
    }
    let bytes = report(255, &body);
    let (rest, header) = parser(&bytes).unwrap();
    assert!(rest.is_empty());
    assert_eq!(header.data.unwrap().len(), 255);
}

#[test]
fn empty_station_report_has_an_empty_list() {
    let bytes = report(0, &[]);
    let (rest, header) = parser(&bytes).unwrap();
    assert_eq!(header.data, Some(Vec::new()));
    assert!(rest.is_empty());
}

#[test]
fn declared_length_does_not_bound_the_records() {
    let mut bytes = vec![0x1c, 0xba, 0x00, 0x00, 0x00, 0x00, 0x00, 0x00, 0x00, 0x2a, 0x02];
    bytes.extend_from_slice(&record(1, 2));
    bytes.extend_from_slice(&record(4, 8));
    let (rest, header) = parser(&bytes).unwrap();
    assert_eq!(header.len, 0);
    assert_eq!(header.cht_id, 42);
    assert_eq!(header.data, Some(vec![station(1, 2), station(4, 8)]));
    assert!(rest.is_empty());
}

#[test]
fn station_report_without_count_byte_is_incomplete() {
    let bytes = [0x1cu8, 0xba, 0x00, 0x00, 0x00, 0x0a, 0x00, 0x00, 0x00, 0x01];
    assert_eq!(parser(&bytes), Err(DecodeError::Incomplete));
}

#[test]
fn station_report_cut_short_is_incomplete() {
    let mut body = record(0, 0);
    body.extend_from_slice(&record(0, 0));
    for cut in [0usize, 1, 56, 57, 58, 113] {
        let bytes = report(2, &body[..cut]);
        assert_eq!(parser(&bytes), Err(DecodeError::Incomplete), "cut at {}", cut);
    }
    assert!(parser(&report(2, &body)).is_ok());
}

#[test]
fn reserved_flag_bit_is_refused() {
    for bad in [0x10u8, 0x20, 0x40, 0x80, 0x1f, 0xff] {
        assert_eq!(parser(&report(1, &record(bad, 0))), Err(DecodeError::InvalidFlags));
        assert_eq!(parser(&report(1, &record(0, bad))), Err(DecodeError::InvalidFlags));
    }
}

#[test]
fn reserved_flag_bit_in_a_later_record_refuses_the_frame() {
    let mut body = record(0x0f, 0x0f);
    body.extend_from_slice(&record(0x01, 0x02));
    body.extend_from_slice(&record(0x00, 0x10));
    assert_eq!(parser(&report(3, &body)), Err(DecodeError::InvalidFlags));
}

#[test]
fn first_failing_record_decides_the_error() {
    // Record 0 is whole and has a reserved bit; record 1 is missing.
    assert_eq!(parser(&report(2, &record(0x80, 0))), Err(DecodeError::InvalidFlags));
    // Record 0 is fine; record 1 is cut behind its bad flags byte.
    let mut body = record(0, 0);
    body.extend_from_slice(&record(0x80, 0)[..40]);
    assert_eq!(parser(&report(2, &body)), Err(DecodeError::Incomplete));
}

#[test]
fn stat_sta_reads_one_record() {
    let mut bytes = record(0x05, 0x0a);
    bytes.push(0x77);
    let (rest, sta) = stat_sta(&bytes).unwrap();
    assert_eq!(sta, station(0x05, 0x0a));
    assert_eq!(rest, &[0x77u8][..]);
    assert_eq!(stat_sta(&bytes[..56]), Err(DecodeError::Incomplete));
    assert_eq!(stat_sta(&record(0x10, 0)), Err(DecodeError::InvalidFlags));
}

#[test]
fn vec_stat_sta_reads_the_count_and_the_records() {
    let mut bytes = vec![2u8];
    bytes.extend_from_slice(&record(1, 1));
    bytes.extend_from_slice(&record(2, 2));
    bytes.push(0x55);
    let (rest, stations) = vec_stat_sta(&bytes, 0).unwrap();
    assert_eq!(stations, vec![station(1, 1), station(2, 2)]);
    assert_eq!(rest, &[0x55u8][..]);
    assert_eq!(vec_stat_sta(&[], 0), Err(DecodeError::Incomplete));
    assert_eq!(vec_stat_sta(&[1], 1000), Err(DecodeError::Incomplete));
}

#[test]
fn signed_fields_are_twos_complement() {
    let mut bytes = record(0, 0);
    bytes[7] = 0x80;
    bytes[8] = 0x7f;
    bytes[21] = 0x00;
    bytes[29] = 0xfe;
    let (_, sta) = stat_sta(&bytes).unwrap();
    assert_eq!(sta.signal, -128);
    assert_eq!(sta.noise, 127);
    assert_eq!(sta.tx_mcs, 0);
    assert_eq!(sta.rx_mcs, -2);
}

#[test]
fn timestamp_is_cut_to_whole_seconds() {
    let mut bytes = record(0, 0);
    bytes[49..57].copy_from_slice(&[0xff, 0xff, 0xff, 0xff, 0xff, 0xff, 0xfa, 0x24]);
    let (_, sta) = stat_sta(&bytes).unwrap();
    assert_eq!(sta.timestamp, -1);
    bytes[49..57].copy_from_slice(&[0x80, 0, 0, 0, 0, 0, 0, 0]);
    let (_, sta) = stat_sta(&bytes).unwrap();
    assert_eq!(sta.timestamp, i64::MIN / 1000);
    bytes[49..57].copy_from_slice(&[0x7f, 0xff, 0xff, 0xff, 0xff, 0xff, 0xff, 0xff]);
    let (_, sta) = stat_sta(&bytes).unwrap();
    assert_eq!(sta.timestamp, 9_223_372_036_854_775);
}

#[test]
fn whole_seconds_rounds_toward_zero() {
    assert_eq!(whole_seconds(0), 0);
    assert_eq!(whole_seconds(999), 0);
    assert_eq!(whole_seconds(1000), 1);
    assert_eq!(whole_seconds(1_600_000_000_123), 1_600_000_000);
    assert_eq!(whole_seconds(-1), 0);
    assert_eq!(whole_seconds(-999), 0);
    assert_eq!(whole_seconds(-1000), -1);
    assert_eq!(whole_seconds(-1500), -1);
    assert_eq!(whole_seconds(i64::MIN), -9_223_372_036_854_775);
    assert_eq!(whole_seconds(i64::MAX), 9_223_372_036_854_775);
}

#[test]
fn wifi_flags_from_bits() {
    for bits in 0u8..=0x0f {
        let flags = WifiFlags::from_bits(bits).unwrap();
        assert_eq!(flags.bits(), bits);
        assert_eq!(flags.to_integer(), bits as i64);
    }
    for bits in 0x10u8..=0xff {
        assert_eq!(WifiFlags::from_bits(bits), None);
    }
}

#[test]
fn wifi_flags_from_bits_truncate() {
    assert_eq!(WifiFlags::from_bits_truncate(0xff).bits(), 0x0f);
    assert_eq!(WifiFlags::from_bits_truncate(0xf5).bits(), 0x05);
    assert_eq!(WifiFlags::from_bits_truncate(0x0a).bits(), 0x0a);
    assert_eq!(WifiFlags::from_bits_truncate(0x00), WifiFlags::empty());
}

#[test]
fn wifi_flags_sets() {
    assert_eq!(WifiFlags::empty().bits(), 0);
    assert!(WifiFlags::empty().is_empty());
    assert_eq!(WifiFlags::all().bits(), IS_40_MHZ | IS_SHORT_GI | IS_HT | IS_VHT);
    assert!(!WifiFlags::all().is_empty());
    let ht_40 = WifiFlags::from_bits(IS_HT | IS_40_MHZ).unwrap();
    let ht = WifiFlags::from_bits(IS_HT).unwrap();
    let vht = WifiFlags::from_bits(IS_VHT).unwrap();
    assert!(ht_40.contains(ht));
    assert!(!ht_40.contains(vht));
    assert!(!ht.contains(ht_40));
    assert!(ht.contains(WifiFlags::empty()));
    assert!(WifiFlags::all().contains(ht_40));
}

#[test]
fn mac_holds_the_bytes_it_was_made_of() {
    let mac = Mac::from(&[1u8, 2, 3, 4, 5, 6][..]);
    assert_eq!(mac.bytes(), &vec![1u8, 2, 3, 4, 5, 6]);
    assert_eq!(mac, Mac::from(&[1u8, 2, 3, 4, 5, 6][..]));
    assert_ne!(mac, Mac::from(&[1u8, 2, 3, 4, 5, 7][..]));
    assert!(Mac::from(&[][..]).bytes().is_empty());
}
