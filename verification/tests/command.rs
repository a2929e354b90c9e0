use ut61eplus_lib::command::Command;
use ut61eplus_lib::protocol::framing::extract_frame_abcd_be16;

#[test]
fn encode_get_measurement() {
    // 0x5E + 379 = 94 + 379 = 473 = 0x01D9
    assert_eq!(
        Command::GetMeasurement.encode(),
        [0xAB, 0xCD, 0x03, 0x5E, 0x01, 0xD9]
    );
}

#[test]
fn encode_hold() {
    // 0x48 + 379 = 72 + 379 = 451 = 0x01C3
    assert_eq!(
        Command::Hold.encode(),
        [0xAB, 0xCD, 0x03, 0x48, 0x01, 0xC3]
    );
}

#[test]
fn encode_every_command() {
    let cases = [
        (Command::GetMeasurement, 0x5E),
        (Command::Hold, 0x48),
        (Command::MinMax, 0x4D),
        (Command::Rel, 0x52),
        (Command::Range, 0x41),
        (Command::Select, 0x53),
        (Command::Light, 0x4C),
    ];
    for (cmd, byte) in cases {
        assert_eq!(cmd.code(), byte);
        let check = byte as u16 + 379;
        assert_eq!(
            cmd.encode(),
            [0xAB, 0xCD, 0x03, byte, (check >> 8) as u8, (check & 0xFF) as u8]
        );
    }
    // 0x52 + 379 = 461 = 0x01CD
    assert_eq!(Command::Rel.encode(), [0xAB, 0xCD, 0x03, 0x52, 0x01, 0xCD]);
}

#[test]
fn encoded_command_is_a_frame() {
    for cmd in [
        Command::GetMeasurement,
        Command::Hold,
        Command::MinMax,
        Command::Rel,
        Command::Range,
        Command::Select,
        Command::Light,
    ] {
        let bytes = cmd.encode();
        let (payload, consumed) = extract_frame_abcd_be16(&bytes).unwrap().unwrap();
        assert_eq!(payload, vec![cmd.code()]);
        assert_eq!(consumed, 6);
    }
}
