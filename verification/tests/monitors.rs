use warmlitectl::error::CtlError;
use warmlitectl::monitor::{
    brightness_percent, find_control, list_line, listed_brightness, monitor_brightness_percent,
    percent_after_update, select_monitor, MonitorControl, MonitorSnapshot,
};

fn control(code: &str, current: Option<u16>, max: Option<u16>) -> MonitorControl {
    MonitorControl { code: code.to_string(), current_value: current, max_value: max, error: None }
}

fn monitor(id: &str, label: &str, model: Option<&str>, supports: bool) -> MonitorSnapshot {
    MonitorSnapshot {
        id: id.to_string(),
        label: label.to_string(),
        model_name: model.map(|m| m.to_string()),
        supports_controls: supports,
        controls: vec![],
    }
}

#[test]
fn brightness_percentages() {
    assert_eq!(brightness_percent(&control("10", None, Some(100))), None);
    assert_eq!(brightness_percent(&control("10", Some(40), None)), Some(40));
    assert_eq!(brightness_percent(&control("10", Some(150), None)), Some(100));
    assert_eq!(brightness_percent(&control("10", Some(50), Some(0))), Some(50));
    assert_eq!(brightness_percent(&control("10", Some(50), Some(200))), Some(25));
    assert_eq!(brightness_percent(&control("10", Some(1), Some(200))), Some(1));
    assert_eq!(brightness_percent(&control("10", Some(101), Some(200))), Some(51));
    assert_eq!(brightness_percent(&control("10", Some(400), Some(200))), Some(100));
    assert_eq!(brightness_percent(&control("10", Some(65535), Some(65535))), Some(100));
}

#[test]
fn controls_are_found_ignoring_case() {
    let mut m = monitor("ddc:1", "Dell", None, true);
    m.controls = vec![control("0a", Some(1), None), control("0A", Some(2), None), control("10", Some(3), None)];
    assert_eq!(find_control(&m, "0A").unwrap().current_value, Some(1));
    assert_eq!(find_control(&m, "10").unwrap().current_value, Some(3));
    assert!(find_control(&m, "12").is_none());
}

#[test]
fn monitor_brightness() {
    let mut m = monitor("ddc:1", "Dell", None, true);
    match monitor_brightness_percent(&m) {
        Err(CtlError::NoBrightnessControl(id)) => assert_eq!(id, "ddc:1"),
        _ => panic!("expected no control"),
    }
    m.controls = vec![control("10", None, None)];
    match monitor_brightness_percent(&m) {
        Err(CtlError::BrightnessUnavailable { id, reason }) => {
            assert_eq!(id, "ddc:1");
            assert_eq!(reason, "no current value");
        }
        _ => panic!("expected unavailable"),
    }
    m.controls[0].error = Some("timeout".to_string());
    match monitor_brightness_percent(&m) {
        Err(CtlError::BrightnessUnavailable { reason, .. }) => assert_eq!(reason, "timeout"),
        _ => panic!("expected unavailable"),
    }
    m.controls = vec![control("10", Some(70), Some(100))];
    assert_eq!(monitor_brightness_percent(&m).unwrap(), 70);
    assert_eq!(listed_brightness(&m), Some(70));
}

#[test]
fn reported_percent_after_update() {
    let mut m = monitor("ddc:1", "Dell", None, true);
    assert_eq!(percent_after_update(&m, 60), 60);
    m.controls = vec![control("10", Some(55), None)];
    assert_eq!(percent_after_update(&m, 60), 55);
}

#[test]
fn list_lines() {
    let mut m = monitor("ddc:1", "Dell U2720Q", None, true);
    assert_eq!(list_line(&m), "ddc:1\tDell U2720Q\tbrightness=n/a");
    m.controls = vec![control("10", Some(42), None)];
    assert_eq!(list_line(&m), "ddc:1\tDell U2720Q\tbrightness=42%");
}

#[test]
fn selection_needs_monitors() {
    assert!(matches!(select_monitor(None, &vec![]), Err(CtlError::NoMonitors)));
    assert!(matches!(select_monitor(Some("x"), &vec![]), Err(CtlError::NoMonitors)));
}

#[test]
fn selection_by_query() {
    let ms = vec![
        monitor("ddc:1", "Dell U2720Q", Some("U2720Q"), true),
        monitor("ddc:2", "LG UltraFine", None, true),
        monitor("builtin", "Built-in Retina", Some("Apple"), false),
    ];
    assert_eq!(select_monitor(Some("DDC:2"), &ms).unwrap(), 1);
    assert_eq!(select_monitor(Some("ultrafine"), &ms).unwrap(), 1);
    assert_eq!(select_monitor(Some("apple"), &ms).unwrap(), 2);
    assert_eq!(select_monitor(Some("u2720"), &ms).unwrap(), 0);
    match select_monitor(Some("ddc"), &ms) {
        Err(CtlError::AmbiguousMonitor { query, ids }) => {
            assert_eq!(query, "ddc");
            assert_eq!(ids, vec!["ddc:1".to_string(), "ddc:2".to_string()]);
        }
        _ => panic!("expected ambiguity"),
    }
    match select_monitor(Some("samsung"), &ms) {
        Err(CtlError::NoMonitorMatched(q)) => assert_eq!(q, "samsung"),
        _ => panic!("expected no match"),
    }
}

#[test]
fn default_selection() {
    let ms = vec![
        monitor("builtin", "Built-in", None, true),
        monitor("ddc:1", "A", None, false),
        monitor("ddc:2", "B", None, true),
    ];
    assert_eq!(select_monitor(None, &ms).unwrap(), 2);
    let ms = vec![monitor("builtin", "Built-in", None, true), monitor("ddc:1", "A", None, false)];
    assert_eq!(select_monitor(None, &ms).unwrap(), 1);
    let ms = vec![monitor("builtin", "Built-in", None, true), monitor("other", "A", None, true)];
    assert_eq!(select_monitor(None, &ms).unwrap(), 0);
}
