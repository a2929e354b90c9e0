use ut61eplus_lib::gui::{device_arg, flag_badges, special_value_label, version_label, BadgeKind};
use ut61eplus_lib::measurement::{MeasuredValue, MeasurementFlags};

fn args(list: &[&str]) -> Vec<String> {
    list.iter().map(|s| s.to_string()).collect()
}

#[test]
fn version_label_release_and_dev() {
    assert_eq!(version_label("0.3.0", "abc1234"), "v0.3.0");
    assert_eq!(version_label("0.4.0-dev", "abc1234"), "v0.4.0-dev (abc1234)");
    assert_eq!(version_label("0.4.0-dev.2", "f00"), "v0.4.0-dev.2 (f00)");
    assert_eq!(version_label("0.4.0-de", "f00"), "v0.4.0-de");
}

#[test]
fn device_arg_forms() {
    assert_eq!(device_arg(&args(&["gui", "--device", "mock"])), Some("mock".to_string()));
    assert_eq!(device_arg(&args(&["gui", "--device=ut8803"])), Some("ut8803".to_string()));
    assert_eq!(device_arg(&args(&["gui", "--device="])), Some(String::new()));
    assert_eq!(device_arg(&args(&["gui", "--device"])), None);
    assert_eq!(device_arg(&args(&["gui"])), None);
    assert_eq!(device_arg(&args(&[])), None);
    assert_eq!(device_arg(&args(&["--device=skipped", "x"])), None);
    assert_eq!(
        device_arg(&args(&["gui", "-v", "--device=a", "--device", "b"])),
        Some("a".to_string())
    );
    assert_eq!(
        device_arg(&args(&["gui", "--device", "--device=c"])),
        Some("--device=c".to_string())
    );
}

#[test]
fn badges_in_display_order() {
    let flags = MeasurementFlags {
        hold: true,
        rel: false,
        min: true,
        max: false,
        auto_range: true,
        low_battery: true,
        hv_warning: true,
        dc: true,
        peak_max: false,
        peak_min: false,
    };
    let badges = flag_badges(&flags);
    assert_eq!(
        badges,
        vec![
            ("AUTO".to_string(), BadgeKind::Accent),
            ("HOLD".to_string(), BadgeKind::Accent),
            ("MIN".to_string(), BadgeKind::Accent),
            ("LOW BAT".to_string(), BadgeKind::Warning),
        ]
    );
    assert!(flag_badges(&MeasurementFlags::default()).is_empty());
}

#[test]
fn special_value_texts() {
    assert_eq!(special_value_label(&MeasuredValue::Overload), Some("OL".to_string()));
    assert_eq!(special_value_label(&MeasuredValue::NcvLevel(0)), Some("NCV 0".to_string()));
    assert_eq!(special_value_label(&MeasuredValue::NcvLevel(4)), Some("NCV 4".to_string()));
    assert_eq!(special_value_label(&MeasuredValue::NcvLevel(40)), Some("NCV 40".to_string()));
    assert_eq!(special_value_label(&MeasuredValue::NcvLevel(255)), Some("NCV 255".to_string()));
    assert_eq!(special_value_label(&MeasuredValue::Normal(1.5f64.to_bits())), None);
}
