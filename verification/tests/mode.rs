use ut61eplus_lib::error::Error;
use ut61eplus_lib::mode::Mode;

#[test]
fn from_byte_known_modes() {
    assert_eq!(Mode::from_byte(0x00).unwrap(), Mode::DcV);
    assert_eq!(Mode::from_byte(0x04).unwrap(), Mode::Ohm);
    assert_eq!(Mode::from_byte(0x1C).unwrap(), Mode::Ncv);
    assert_eq!(Mode::from_byte(0x1E).unwrap(), Mode::PeakMv);
}

#[test]
fn from_byte_unknown_mode() {
    assert!(matches!(Mode::from_byte(0x1F), Err(Error::UnknownMode(0x1F))));
    assert!(matches!(Mode::from_byte(0xFF), Err(Error::UnknownMode(0xFF))));
}

#[test]
fn every_mode_byte_round_trips() {
    for b in 0u8..=0x1E {
        let m = Mode::from_byte(b).unwrap();
        assert_eq!(m.code(), b);
    }
}

#[test]
fn mode_labels() {
    assert_eq!(Mode::DcV.to_string(), "DC V");
    assert_eq!(Mode::Ohm.to_string(), "Ω");
    assert_eq!(Mode::TempC.to_string(), "°C");
    assert_eq!(Mode::AcDcUa.to_string(), "AC+DC µA");
    assert_eq!(Mode::LpfMa.to_string(), "LPF mA");
    assert_eq!(Mode::PeakMv.to_string(), "Peak mV");
}
