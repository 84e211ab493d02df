use warmlitectl::cli::{
    delta_target, parse_command, parse_common_flags, parse_i16, parse_u16, plan_brightness,
    plan_scene, BrightnessAction, Command,
};
use warmlitectl::error::CtlError;
use warmlitectl::number::IntErrorKind;

fn strings(items: &[&str]) -> Vec<String> {
    items.iter().map(|s| s.to_string()).collect()
}

#[test]
fn common_flags_are_taken_out() {
    let mut args = strings(&["a", "--notify", "-m", "dell", "b"]);
    let (query, notify) = parse_common_flags(&mut args).unwrap();
    assert_eq!(query.as_deref(), Some("dell"));
    assert!(notify);
    assert_eq!(args, strings(&["a", "b"]));
}

#[test]
fn last_monitor_flag_wins() {
    let mut args = strings(&["--monitor", "one", "-m", "two"]);
    let (query, notify) = parse_common_flags(&mut args).unwrap();
    assert_eq!(query.as_deref(), Some("two"));
    assert!(!notify);
    assert!(args.is_empty());
}

#[test]
fn monitor_value_may_look_like_a_flag() {
    let mut args = strings(&["-m", "-n", "x"]);
    let (query, notify) = parse_common_flags(&mut args).unwrap();
    assert_eq!(query.as_deref(), Some("-n"));
    assert!(!notify);
    assert_eq!(args, strings(&["x"]));
}

#[test]
fn missing_monitor_value_leaves_arguments() {
    let mut args = strings(&["a", "-n", "--monitor"]);
    let r = parse_common_flags(&mut args);
    assert!(matches!(r, Err(CtlError::MissingMonitorValue)));
    assert_eq!(args, strings(&["a", "-n", "--monitor"]));
}

#[test]
fn flags_taken_out_twice_find_nothing() {
    let mut args = strings(&["x", "-n", "--monitor", "q", "y", "--notify"]);
    let _ = parse_common_flags(&mut args).unwrap();
    let kept = args.clone();
    let (query, notify) = parse_common_flags(&mut args).unwrap();
    assert_eq!(query, None);
    assert!(!notify);
    assert_eq!(args, kept);
}

#[test]
fn parse_u16_values() {
    assert_eq!(parse_u16("42", "v").unwrap(), 42);
    assert_eq!(parse_u16("+7", "v").unwrap(), 7);
    assert_eq!(parse_u16("0007", "v").unwrap(), 7);
    assert_eq!(parse_u16("65535", "v").unwrap(), 65535);
    assert_eq!(parse_u16("0", "v").unwrap(), 0);
}

fn kind_of<T>(r: Result<T, CtlError>) -> IntErrorKind {
    match r {
        Err(CtlError::InvalidNumber { kind, .. }) => kind,
        _ => panic!("expected an invalid number"),
    }
}

#[test]
fn parse_u16_errors() {
    assert_eq!(kind_of(parse_u16("", "v")), IntErrorKind::Empty);
    assert_eq!(kind_of(parse_u16("abc", "v")), IntErrorKind::InvalidDigit);
    assert_eq!(kind_of(parse_u16("+", "v")), IntErrorKind::InvalidDigit);
    assert_eq!(kind_of(parse_u16("-1", "v")), IntErrorKind::InvalidDigit);
    assert_eq!(kind_of(parse_u16(" 5", "v")), IntErrorKind::InvalidDigit);
    assert_eq!(kind_of(parse_u16("65536", "v")), IntErrorKind::PosOverflow);
    assert_eq!(kind_of(parse_u16("99999x", "v")), IntErrorKind::PosOverflow);
    match parse_u16("1x", "brightness value") {
        Err(CtlError::InvalidNumber { what, input, kind }) => {
            assert_eq!(what, "brightness value");
            assert_eq!(input, "1x");
            assert_eq!(kind, IntErrorKind::InvalidDigit);
        }
        _ => panic!("expected an invalid number"),
    }
}

#[test]
fn parse_numbers_agree_with_std() {
    for s in ["", "+", "-", "0", "-0", "+12", "-12", "32767", "32768", "-32768", "-32769", "65535",
        "65536", "1a", "a1", "++1", "+-1", "999999", "٣"]
    {
        assert_eq!(parse_u16(s, "v").ok(), s.parse::<u16>().ok(), "u16 {s:?}");
        assert_eq!(parse_i16(s, "v").ok(), s.parse::<i16>().ok(), "i16 {s:?}");
    }
}

#[test]
fn parse_i16_values_and_errors() {
    assert_eq!(parse_i16("-5", "v").unwrap(), -5);
    assert_eq!(parse_i16("+5", "v").unwrap(), 5);
    assert_eq!(parse_i16("-32768", "v").unwrap(), -32768);
    assert_eq!(kind_of(parse_i16("-32769", "v")), IntErrorKind::NegOverflow);
    assert_eq!(kind_of(parse_i16("32768", "v")), IntErrorKind::PosOverflow);
    assert_eq!(kind_of(parse_i16("-", "v")), IntErrorKind::InvalidDigit);
    assert_eq!(kind_of(parse_i16("", "v")), IntErrorKind::Empty);
}

#[test]
fn commands() {
    assert!(matches!(parse_command(vec![]), Err(CtlError::MissingCommand)));
    assert!(matches!(parse_command(strings(&["list", "x"])), Ok(Command::List)));
    match parse_command(strings(&["brightness", "get", "-n"])) {
        Ok(Command::Brightness(rest)) => assert_eq!(rest, strings(&["get", "-n"])),
        _ => panic!("expected brightness"),
    }
    match parse_command(strings(&["scene", "paper"])) {
        Ok(Command::Scene(rest)) => assert_eq!(rest, strings(&["paper"])),
        _ => panic!("expected scene"),
    }
    match parse_command(strings(&["frobnicate"])) {
        Err(CtlError::UnknownCommand(c)) => assert_eq!(c, "frobnicate"),
        _ => panic!("expected an unknown command"),
    }
}

#[test]
fn brightness_get() {
    let req = plan_brightness(strings(&["get", "--monitor", "lg"])).unwrap();
    assert!(matches!(req.action, BrightnessAction::Get));
    assert_eq!(req.monitor_query.as_deref(), Some("lg"));
    assert!(!req.notify);
    assert!(matches!(
        plan_brightness(strings(&["get", "extra"])),
        Err(CtlError::GetTakesNoArguments)
    ));
}

#[test]
fn brightness_set_is_capped() {
    let req = plan_brightness(strings(&["set", "150", "-n"])).unwrap();
    assert!(matches!(req.action, BrightnessAction::SetTo(100)));
    assert!(req.notify);
    let req = plan_brightness(strings(&["set", "40"])).unwrap();
    assert!(matches!(req.action, BrightnessAction::SetTo(40)));
    assert!(matches!(plan_brightness(strings(&["set"])), Err(CtlError::SetUsage)));
    assert!(matches!(plan_brightness(strings(&["set", "1", "2"])), Err(CtlError::SetUsage)));
    match plan_brightness(strings(&["set", "abc"])) {
        Err(CtlError::InvalidNumber { what, input, kind }) => {
            assert_eq!(what, "brightness value");
            assert_eq!(input, "abc");
            assert_eq!(kind, IntErrorKind::InvalidDigit);
        }
        _ => panic!("expected an invalid number"),
    }
}

#[test]
fn negative_set_value_is_invalid() {
    match plan_brightness(strings(&["set", "-5"])) {
        Err(e) => {
            assert_eq!(e.message(), "invalid brightness value: -5");
            assert_eq!(e.detailed_message(), "invalid brightness value: -5: invalid digit found in string");
        }
        Ok(_) => panic!("expected an invalid number"),
    }
    match parse_u16("65536", "brightness value") {
        Err(e) => assert_eq!(e.message(), "invalid brightness value: 65536"),
        Ok(_) => panic!("expected an invalid number"),
    }
}

#[test]
fn brightness_delta() {
    let req = plan_brightness(strings(&["delta", "-20"])).unwrap();
    assert!(matches!(req.action, BrightnessAction::Delta(-20)));
    assert!(matches!(plan_brightness(strings(&["delta"])), Err(CtlError::DeltaUsage)));
    match plan_brightness(strings(&["delta", "x"])) {
        Err(CtlError::InvalidNumber { what, .. }) => assert_eq!(what, "brightness delta"),
        _ => panic!("expected an invalid number"),
    }
}

#[test]
fn brightness_errors() {
    assert!(matches!(plan_brightness(vec![]), Err(CtlError::MissingBrightnessSubcommand)));
    match plan_brightness(strings(&["up"])) {
        Err(CtlError::UnknownBrightnessSubcommand(s)) => assert_eq!(s, "up"),
        _ => panic!("expected an unknown subcommand"),
    }
    assert!(matches!(
        plan_brightness(strings(&["up", "--monitor"])),
        Err(CtlError::MissingMonitorValue)
    ));
}

#[test]
fn delta_targets_are_clamped() {
    assert_eq!(delta_target(95, 10), 100);
    assert_eq!(delta_target(5, -10), 0);
    assert_eq!(delta_target(50, -20), 30);
    assert_eq!(delta_target(50, 0), 50);
    assert_eq!(delta_target(65535, -32768), 100);
    assert_eq!(delta_target(0, 32767), 100);
}

#[test]
fn scenes() {
    let req = plan_scene(strings(&["sunset", "-m", "dell", "--notify"])).unwrap();
    assert_eq!(req.scene_id, "sunset");
    assert_eq!(req.monitor_query.as_deref(), Some("dell"));
    assert!(req.notify);
    assert!(matches!(plan_scene(vec![]), Err(CtlError::SceneUsage)));
    assert!(matches!(
        plan_scene(strings(&["paper", "ember"])),
        Err(CtlError::SceneExtraArguments)
    ));
    assert!(matches!(plan_scene(strings(&["paper", "-m"])), Err(CtlError::MissingMonitorValue)));
}
