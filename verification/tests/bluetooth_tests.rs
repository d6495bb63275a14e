use battery_report::bluetooth::{
    convert_bytes_to_level, convert_bytes_to_status, process_adapter, process_device,
    BTBatteryLevel, GattCharacteristic, BATTERY_LEVEL_UUID, BATTERY_POWER_STATE_UUID,
};
use battery_report::error::BatteryError;
use battery_report::status::BatteryStatus;

#[test]
fn level_extractor_takes_first_byte_or_zero() {
    assert_eq!(convert_bytes_to_level(vec![42, 7, 9]), 42);
    assert_eq!(convert_bytes_to_level(vec![0]), 0);
    assert_eq!(convert_bytes_to_level(vec![255]), 255);
    assert_eq!(convert_bytes_to_level(vec![]), 0);
}

#[test]
fn status_decoder_is_a_placeholder() {
    assert_eq!(convert_bytes_to_status(vec![]), BatteryStatus::Discharging);
    assert_eq!(convert_bytes_to_status(vec![1, 2, 3]), BatteryStatus::Discharging);
}

fn characteristic(uuid: u128, value: &[u8]) -> GattCharacteristic {
    GattCharacteristic { uuid, value: value.to_vec() }
}

#[test]
fn device_without_name_fails() {
    assert_eq!(
        process_device(None, vec![]),
        Err(BatteryError::NameUnavailable)
    );
}

#[test]
fn device_reading_comes_from_known_characteristics() {
    let reading = process_device(
        Some("headphones".to_string()),
        vec![
            characteristic(0xdead, &[9]),
            characteristic(BATTERY_LEVEL_UUID, &[77]),
            characteristic(BATTERY_POWER_STATE_UUID, &[1]),
        ],
    )
    .unwrap();
    assert_eq!(reading.name, "headphones");
    assert_eq!(reading.level, 77);
    assert_eq!(reading.status, BatteryStatus::Discharging);
}

#[test]
fn device_without_characteristics_still_yields_a_reading() {
    let reading = process_device(Some("mouse".to_string()), vec![]).unwrap();
    assert_eq!(reading.name, "mouse");
    assert_eq!(reading.level, 0);
    assert_eq!(reading.status, BatteryStatus::Discharging);
}

#[test]
fn later_level_characteristic_wins() {
    let reading = process_device(
        Some("kbd".to_string()),
        vec![
            characteristic(BATTERY_LEVEL_UUID, &[10]),
            characteristic(BATTERY_LEVEL_UUID, &[20]),
        ],
    )
    .unwrap();
    assert_eq!(reading.level, 20);
}

#[test]
fn empty_level_payload_reads_as_zero() {
    let reading = process_device(
        Some("kbd".to_string()),
        vec![characteristic(BATTERY_LEVEL_UUID, &[])],
    )
    .unwrap();
    assert_eq!(reading.level, 0);
}

fn reading(name: &str, level: u8, status: BatteryStatus) -> BTBatteryLevel {
    BTBatteryLevel { name: name.to_string(), level, status }
}

#[test]
fn failed_device_gets_the_default_reading_and_the_scan_goes_on() {
    let merged = process_adapter(vec![
        Some(reading("a", 10, BatteryStatus::Charging)),
        None,
        Some(reading("b", 20, BatteryStatus::Charged)),
    ]);
    assert_eq!(merged.len(), 3);
    assert_eq!(merged[0].name, "a");
    assert_eq!(merged[0].level, 10);
    assert_eq!(merged[1].name, "unknown device");
    assert_eq!(merged[1].level, 0);
    assert_eq!(merged[1].status, BatteryStatus::Discharging);
    assert_eq!(merged[2].name, "b");
    assert_eq!(merged[2].level, 20);
}

#[test]
fn default_reading_matches_the_documented_placeholder() {
    let d = BTBatteryLevel::default();
    assert_eq!(d.name, "unknown device");
    assert_eq!(d.level, 0);
    assert_eq!(d.status, BatteryStatus::Discharging);
}
