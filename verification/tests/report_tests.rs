use battery_report::bluetooth::BTBatteryLevel;
use battery_report::dygma::DygmaBatteryInfo;
use battery_report::error::BatteryError;
use battery_report::permissions::{check_permissions, has_bluetooth_permission};
use battery_report::report::{build_reports, render_reports, Report};
use battery_report::status::BatteryStatus;

fn ble(name: &str, level: u8, status: BatteryStatus) -> BTBatteryLevel {
    BTBatteryLevel { name: name.to_string(), level, status }
}

fn defy(left_level: u8, left_status: BatteryStatus, right_level: u8, right_status: BatteryStatus)
    -> DygmaBatteryInfo {
    DygmaBatteryInfo {
        name: "Dygma Defy".to_string(),
        left_level,
        left_status,
        right_level,
        right_status,
    }
}

#[test]
fn serial_report_joins_the_two_levels() {
    let r = Report::from_serial(&defy(
        50,
        BatteryStatus::Discharging,
        75,
        BatteryStatus::Charging,
    ));
    assert_eq!(r.battery_level, "50/75");
    assert_eq!(r.battery_status, "Discharging");
    assert_eq!(r.name, "Dygma Defy");
}

#[test]
fn ble_report_renders_the_level_in_decimal() {
    let r = Report::from_ble(&ble("headphones", 42, BatteryStatus::Charging));
    assert_eq!(r.battery_level, "42");
    assert_eq!(r.battery_status, "Charging");
    assert_eq!(r.name, "headphones");
}

#[test]
fn report_line_omits_the_status() {
    let r = Report::from_ble(&ble("headphones", 42, BatteryStatus::Charging));
    assert_eq!(r.to_string(), "headphones: 42\n");
}

#[test]
fn empty_list_renders_as_empty_array_or_empty_string() {
    let reports: Vec<Report> = vec![];
    assert_eq!(render_reports(&reports, true), "[]");
    assert_eq!(render_reports(&reports, false), "");
}

#[test]
fn json_rendering_lists_objects_in_order() {
    let reports = vec![
        Report::from_ble(&ble("a", 1, BatteryStatus::Charged)),
        Report::from_serial(&defy(50, BatteryStatus::Discharging, 75, BatteryStatus::Charging)),
    ];
    let expected = "[{\"battery_level\":\"1\",\"battery_status\":\"Charged\",\"name\":\"a\"},{\"battery_level\":\"50/75\",\"battery_status\":\"Discharging\",\"name\":\"Dygma Defy\"}]";
    assert_eq!(render_reports(&reports, true), expected);
}

#[test]
fn plain_rendering_is_one_line_per_report() {
    let reports = vec![
        Report::from_ble(&ble("a", 1, BatteryStatus::Charged)),
        Report::from_ble(&ble("b", 2, BatteryStatus::Unknown)),
    ];
    assert_eq!(render_reports(&reports, false), "a: 1\nb: 2\n");
}

#[test]
fn json_strings_are_escaped() {
    let reports = vec![Report {
        battery_level: "0".to_string(),
        battery_status: "Unknown".to_string(),
        name: "a\"b\\c\nd\u{1}e".to_string(),
    }];
    assert_eq!(
        render_reports(&reports, true),
        "[{\"battery_level\":\"0\",\"battery_status\":\"Unknown\",\"name\":\"a\\\"b\\\\c\\nd\\u0001e\"}]"
    );
}

#[test]
fn reports_list_ble_devices_before_serial_devices() {
    let reports = build_reports(
        &vec![ble("a", 1, BatteryStatus::Charging), ble("b", 2, BatteryStatus::Charged)],
        &vec![defy(50, BatteryStatus::Discharging, 75, BatteryStatus::Charging)],
    );
    assert_eq!(reports.len(), 3);
    assert_eq!(reports[0].name, "a");
    assert_eq!(reports[1].name, "b");
    assert_eq!(reports[2].name, "Dygma Defy");
    assert_eq!(reports[2].battery_level, "50/75");
}

#[test]
fn permission_gate() {
    assert!(has_bluetooth_permission().unwrap());
    assert_eq!(check_permissions(true, false), Ok(()));
    assert_eq!(check_permissions(true, true), Ok(()));
    match check_permissions(false, true) {
        Err(BatteryError::PermissionDenied(m)) => {
            assert!(m.contains("System Preferences"));
        },
        other => panic!("expected a denial, got {:?}", other),
    }
    assert_eq!(
        check_permissions(false, false),
        Err(BatteryError::PermissionDenied("Unable to get bluetooth permissions".to_string()))
    );
}
