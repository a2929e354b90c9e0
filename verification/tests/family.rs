use std::str::FromStr;

use ut61eplus_lib::protocol::DeviceFamily;

#[test]
fn family_names_round_trip() {
    for f in [
        DeviceFamily::Ut61EPlus,
        DeviceFamily::Ut8803,
        DeviceFamily::Ut171,
        DeviceFamily::Ut181a,
    ] {
        assert_eq!(DeviceFamily::parse(&f.to_string()), Ok(f));
    }
    assert_eq!(DeviceFamily::Ut61EPlus.to_string(), "ut61eplus");
    assert_eq!(DeviceFamily::Ut181a.to_string(), "ut181a");
}

#[test]
fn family_aliases_ignore_case() {
    assert_eq!(DeviceFamily::from_str("UT61E+"), Ok(DeviceFamily::Ut61EPlus));
    assert_eq!(DeviceFamily::from_str("ut161"), Ok(DeviceFamily::Ut61EPlus));
    assert_eq!(DeviceFamily::from_str("Ut8803E"), Ok(DeviceFamily::Ut8803));
    assert_eq!(DeviceFamily::from_str("UT171C"), Ok(DeviceFamily::Ut171));
    assert_eq!(DeviceFamily::from_str("ut181"), Ok(DeviceFamily::Ut181a));
    let parsed: DeviceFamily = "uT61D".parse().unwrap();
    assert_eq!(parsed, DeviceFamily::Ut61EPlus);
}

#[test]
fn family_unknown_name() {
    assert_eq!(
        DeviceFamily::from_str("UT60E"),
        Err("unknown device family: UT60E".to_string())
    );
    assert_eq!(
        DeviceFamily::parse(""),
        Err("unknown device family: ".to_string())
    );
    assert_eq!(
        DeviceFamily::parse("ut61e "),
        Err("unknown device family: ut61e ".to_string())
    );
}
