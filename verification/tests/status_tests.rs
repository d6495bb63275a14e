use battery_report::error::BatteryError;
use battery_report::status::BatteryStatus;

#[test]
fn parses_every_documented_code() {
    assert_eq!(BatteryStatus::from_str("0"), Ok(BatteryStatus::Discharging));
    assert_eq!(BatteryStatus::from_str("1"), Ok(BatteryStatus::Charging));
    assert_eq!(BatteryStatus::from_str("2"), Ok(BatteryStatus::Charged));
    assert_eq!(BatteryStatus::from_str("3"), Ok(BatteryStatus::Unknown));
    assert_eq!(BatteryStatus::from_str("4"), Ok(BatteryStatus::Unknown));
}

#[test]
fn rejects_everything_else_naming_the_value() {
    assert_eq!(
        BatteryStatus::from_str("5"),
        Err(BatteryError::UnknownStatusCode("5".to_string()))
    );
    assert_eq!(
        BatteryStatus::from_str(""),
        Err(BatteryError::UnknownStatusCode("".to_string()))
    );
    assert_eq!(
        BatteryStatus::from_str("x"),
        Err(BatteryError::UnknownStatusCode("x".to_string()))
    );
    assert_eq!(
        BatteryStatus::from_str("10"),
        Err(BatteryError::UnknownStatusCode("10".to_string()))
    );
    assert_eq!(
        BatteryStatus::from_str("-1"),
        Err(BatteryError::UnknownStatusCode("-1".to_string()))
    );
}

#[test]
fn status_display_names() {
    assert_eq!(BatteryStatus::Charging.to_string(), "Charging");
    assert_eq!(BatteryStatus::Charged.to_string(), "Charged");
    assert_eq!(BatteryStatus::Discharging.to_string(), "Discharging");
    assert_eq!(BatteryStatus::Unknown.to_string(), "Unknown");
}

#[test]
fn error_messages_name_the_offending_value() {
    assert_eq!(
        BatteryError::UnknownStatusCode("9".to_string()).describe(),
        "Error converting BatteryStatus: unknown value 9"
    );
    assert_eq!(
        BatteryError::BadLevel("abc".to_string()).describe(),
        "Error parsing battery level: invalid value abc"
    );
    assert_eq!(BatteryError::EmptyResponse.describe(), "Got empty response");
    assert_eq!(
        BatteryError::AdapterUnavailable.describe(),
        "Bluetooth adapter not found"
    );
}
