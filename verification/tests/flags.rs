use ut61eplus_lib::flags::StatusFlags;

#[test]
fn parse_no_flags() {
    let flags = StatusFlags::parse(0x00, 0x00, 0x00);
    assert_eq!(flags, StatusFlags::default());
}

#[test]
fn parse_hold_and_auto() {
    let flags = StatusFlags::parse(0x01, 0x01, 0x00);
    assert!(flags.hold);
    assert!(!flags.rel);
    assert!(flags.auto_range);
    assert!(!flags.min);
    assert!(!flags.max);
    assert!(!flags.low_battery);
}

#[test]
fn parse_all_flags() {
    let flags = StatusFlags::parse(0x03, 0x07, 0x01);
    assert!(flags.hold);
    assert!(flags.rel);
    assert!(flags.auto_range);
    assert!(flags.min);
    assert!(flags.max);
    assert!(flags.low_battery);
}

#[test]
fn display_flags() {
    let flags = StatusFlags::parse(0x01, 0x01, 0x00);
    assert_eq!(flags.to_string(), "HOLD AUTO");
}

#[test]
fn display_all_and_no_flags() {
    assert_eq!(
        StatusFlags::parse(0x03, 0x07, 0x01).to_string(),
        "HOLD REL AUTO MIN MAX LOW BAT"
    );
    assert_eq!(StatusFlags::parse(0x00, 0x00, 0x00).to_string(), "");
    assert_eq!(StatusFlags::parse(0x00, 0x04, 0x01).to_string(), "MAX LOW BAT");
}

#[test]
fn parse_ignores_high_nibble_and_unused_bits() {
    assert_eq!(
        StatusFlags::parse(0xF1, 0x31, 0x30),
        StatusFlags::parse(0x01, 0x01, 0x00)
    );
    assert_eq!(
        StatusFlags::parse(0x0C, 0x08, 0x0E),
        StatusFlags::default()
    );
    let f = StatusFlags::parse(0x02, 0x02, 0x00);
    assert!(!f.hold && f.rel && !f.auto_range && f.min && !f.max && !f.low_battery);
}
