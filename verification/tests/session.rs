use warmlitectl::cli::{plan_brightness, plan_scene};
use warmlitectl::error::CtlError;
use warmlitectl::monitor::{list_output, MonitorControl, MonitorSnapshot};
use warmlitectl::session::{
    brightness_after_listing, brightness_report, scene_report, BrightnessStep,
};

fn strings(items: &[&str]) -> Vec<String> {
    items.iter().map(|s| s.to_string()).collect()
}

fn monitor(id: &str, label: &str, brightness: Option<u16>) -> MonitorSnapshot {
    MonitorSnapshot {
        id: id.to_string(),
        label: label.to_string(),
        model_name: None,
        supports_controls: true,
        controls: vec![MonitorControl {
            code: "10".to_string(),
            current_value: brightness,
            max_value: Some(100),
            error: None,
        }],
    }
}

#[test]
fn list_output_lines() {
    assert_eq!(list_output(&vec![]), vec!["No monitors found.".to_string()]);
    let ms = vec![monitor("ddc:1", "Dell", Some(30)), monitor("ddc:2", "LG", None)];
    assert_eq!(
        list_output(&ms),
        vec!["ddc:1\tDell\tbrightness=30%".to_string(), "ddc:2\tLG\tbrightness=n/a".to_string()]
    );
}

#[test]
fn get_only_reports() {
    let ms = vec![monitor("builtin", "Mac", None), monitor("ddc:1", "Dell", Some(30))];
    let req = plan_brightness(strings(&["get", "-n"])).unwrap();
    assert!(matches!(brightness_after_listing(&req, &ms), Ok(BrightnessStep::Report(30))));
}

#[test]
fn set_and_delta_write() {
    let ms = vec![monitor("ddc:1", "Dell", Some(30)), monitor("ddc:2", "LG", Some(90))];
    let req = plan_brightness(strings(&["set", "70", "-m", "lg"])).unwrap();
    assert!(matches!(
        brightness_after_listing(&req, &ms),
        Ok(BrightnessStep::Write { monitor: 1, target: 70 })
    ));
    let req = plan_brightness(strings(&["delta", "+25", "-m", "LG"])).unwrap();
    assert!(matches!(
        brightness_after_listing(&req, &ms),
        Ok(BrightnessStep::Write { monitor: 1, target: 100 })
    ));
}

#[test]
fn selection_errors_come_before_writes() {
    let ms = vec![monitor("ddc:1", "Dell", Some(30)), monitor("ddc:2", "LG", Some(90))];
    let req = plan_brightness(strings(&["set", "70", "-m", "ddc"])).unwrap();
    assert!(matches!(
        brightness_after_listing(&req, &ms),
        Err(CtlError::AmbiguousMonitor { .. })
    ));
    let req = plan_brightness(strings(&["delta", "5"])).unwrap();
    let unreadable = vec![monitor("ddc:1", "Dell", None)];
    assert!(matches!(
        brightness_after_listing(&req, &unreadable),
        Err(CtlError::BrightnessUnavailable { .. })
    ));
    assert!(matches!(brightness_after_listing(&req, &vec![]), Err(CtlError::NoMonitors)));
}

#[test]
fn reports_after_update() {
    let req = plan_brightness(strings(&["set", "70", "--notify"])).unwrap();
    let out = brightness_report(&req, &monitor("ddc:1", "Dell", Some(69)), 70);
    assert_eq!(out.line, "69");
    let n = out.notification.unwrap();
    assert_eq!(n.program, "notify-send");
    assert_eq!(n.args[5], "int:value:69");
    assert_eq!(n.args[7], "69% · Dell");
    let req = plan_brightness(strings(&["set", "70"])).unwrap();
    let out = brightness_report(&req, &monitor("ddc:1", "Dell", None), 70);
    assert_eq!(out.line, "70");
    assert!(out.notification.is_none());

    let req = plan_scene(strings(&["ember", "-n"])).unwrap();
    let out = scene_report(&req, &monitor("ddc:1", "Dell", None));
    assert_eq!(out.line, "ddc:1 ember");
    let n = out.notification.unwrap();
    assert_eq!(n.args[4], "Scene: ember");
    assert_eq!(n.args[5], "Dell");
    let req = plan_scene(strings(&["ember"])).unwrap();
    assert!(scene_report(&req, &monitor("ddc:1", "Dell", None)).notification.is_none());
}
