use range_bridge::ble::{
    decode_notification, find_range_characteristic, is_wanted_device, scan_timed_out, BleEvent,
    RANGE_CHAR_UUID, RANGE_SERVICE_UUID, SCAN_POLL_MILLIS,
};

#[test]
fn identifiers_are_those_of_the_range_service() {
    assert_eq!(RANGE_SERVICE_UUID, 0x00000001_7272_6e67_6669_6e6465720000);
    assert_eq!(RANGE_CHAR_UUID, 0x00000002_7272_6e67_6669_6e6465720000);
    assert_eq!(SCAN_POLL_MILLIS, 250);
}

#[test]
fn notification_is_decoded_low_byte_first() {
    assert_eq!(decode_notification(RANGE_CHAR_UUID, &[0x2c, 0x01]), Some(BleEvent::RangeUpdate(300)));
    assert_eq!(decode_notification(RANGE_CHAR_UUID, &[0x01, 0x2c]), Some(BleEvent::RangeUpdate(0x2c01)));
    assert_eq!(decode_notification(RANGE_CHAR_UUID, &[0, 0]), Some(BleEvent::RangeUpdate(0)));
    assert_eq!(decode_notification(RANGE_CHAR_UUID, &[0xff, 0xff]), Some(BleEvent::RangeUpdate(u16::MAX)));
}

#[test]
fn notification_may_carry_more_than_two_bytes() {
    assert_eq!(
        decode_notification(RANGE_CHAR_UUID, &[0x1e, 0x00, 0xaa, 0xbb]),
        Some(BleEvent::RangeUpdate(30))
    );
}

#[test]
fn short_notification_is_dropped() {
    assert_eq!(decode_notification(RANGE_CHAR_UUID, &[]), None);
    assert_eq!(decode_notification(RANGE_CHAR_UUID, &[0x1e]), None);
}

#[test]
fn notification_of_another_characteristic_is_dropped() {
    assert_eq!(decode_notification(RANGE_SERVICE_UUID, &[0x1e, 0x00]), None);
    assert_eq!(decode_notification(0, &[0x1e, 0x00]), None);
}

#[test]
fn range_characteristic_is_the_first_that_matches() {
    assert_eq!(find_range_characteristic(&[]), None);
    assert_eq!(find_range_characteristic(&[1, 2, 3]), None);
    assert_eq!(find_range_characteristic(&[RANGE_CHAR_UUID]), Some(0));
    assert_eq!(find_range_characteristic(&[7, RANGE_SERVICE_UUID, RANGE_CHAR_UUID, 9]), Some(2));
    assert_eq!(find_range_characteristic(&[7, RANGE_CHAR_UUID, RANGE_CHAR_UUID]), Some(1));
}

#[test]
fn scan_times_out_only_after_the_timeout() {
    assert!(!scan_timed_out(0, 30));
    assert!(!scan_timed_out(29_999_999_999, 30));
    assert!(!scan_timed_out(30_000_000_000, 30));
    assert!(scan_timed_out(30_000_000_001, 30));
    assert!(scan_timed_out(1, 0));
    assert!(!scan_timed_out(0, 0));
    assert!(!scan_timed_out(u64::MAX as u128 * 1_000_000_000, u64::MAX));
    assert!(scan_timed_out(u64::MAX as u128 * 1_000_000_000 + 1, u64::MAX));
}

#[test]
fn wanted_device_is_matched_by_its_exact_name() {
    let wanted = "Rangefinder".to_string();
    assert!(is_wanted_device(&Some("Rangefinder".to_string()), &wanted));
    assert!(!is_wanted_device(&Some("rangefinder".to_string()), &wanted));
    assert!(!is_wanted_device(&Some("Rangefinder ".to_string()), &wanted));
    assert!(!is_wanted_device(&Some(String::new()), &wanted));
    assert!(!is_wanted_device(&None, &wanted));
    assert!(is_wanted_device(&Some(String::new()), &String::new()));
}
