use vstd::prelude::*;
use vstd::string::StringExecFns;

use crate::error::Error;

verus! {

/// Measurement modes reported by the UT61E+.
/// Each mode is identified by a byte, given by [`Mode::code`]: the nibble
/// values after masking with 0x0F, from 0x00 (`DcV`) to 0x1E (`PeakMv`) in
/// the order listed here.
#[derive(Debug, Clone, Copy, PartialEq, Eq, Hash, Structural)]
pub enum Mode {
    /// Byte 0x00: DC V.
    DcV,
    /// Byte 0x01: AC V.
    AcV,
    /// Byte 0x02: DC mV.
    DcMv,
    /// Byte 0x03: AC mV.
    AcMv,
    /// Byte 0x04: Ω.
    Ohm,
    /// Byte 0x05: Capacitance.
    Capacitance,
    /// Byte 0x06: Hz.
    Hz,
    /// Byte 0x07: Duty Cycle.
    DutyCycle,
    /// Byte 0x08: °C.
    TempC,
    /// Byte 0x09: °F.
    TempF,
    /// Byte 0x0A: Diode.
    Diode,
    /// Byte 0x0B: Continuity.
    Continuity,
    /// Byte 0x0C: DC µA.
    DcUa,
    /// Byte 0x0D: AC µA.
    AcUa,
    /// Byte 0x0E: DC mA.
    DcMa,
    /// Byte 0x0F: AC mA.
    AcMa,
    /// Byte 0x10: DC A.
    DcA,
    /// Byte 0x11: AC A.
    AcA,
    /// Byte 0x12: AC+DC V.
    AcDcV,
    /// Byte 0x13: AC+DC mV.
    AcDcMv,
    /// Byte 0x14: AC+DC µA.
    AcDcUa,
    /// Byte 0x15: AC+DC mA.
    AcDcMa,
    /// Byte 0x16: AC+DC A.
    AcDcA,
    /// Byte 0x17: LPF V.
    LpfV,
    /// Byte 0x18: LPF mV.
    LpfMv,
    /// Byte 0x19: LPF µA.
    LpfUa,
    /// Byte 0x1A: LPF mA.
    LpfMa,
    /// Byte 0x1B: LPF A.
    LpfA,
    /// Byte 0x1C: NCV.
    Ncv,
    /// Byte 0x1D: Peak V.
    PeakV,
    /// Byte 0x1E: Peak mV.
    PeakMv,
}

/// The mode labels in the order of the mode bytes: entry `b` is the label
/// of the mode whose byte is `b`, from 0x00 (DC V) to 0x1E (Peak mV).
pub open spec fn labels_by_byte() -> Seq<Seq<char>> {
    seq![
        "DC V"@,
        "AC V"@,
        "DC mV"@,
        "AC mV"@,
        "Ω"@,
        "Capacitance"@,
        "Hz"@,
        "Duty Cycle"@,
        "°C"@,
        "°F"@,
        "Diode"@,
        "Continuity"@,
        "DC µA"@,
        "AC µA"@,
        "DC mA"@,
        "AC mA"@,
        "DC A"@,
        "AC A"@,
        "AC+DC V"@,
        "AC+DC mV"@,
        "AC+DC µA"@,
        "AC+DC mA"@,
        "AC+DC A"@,
        "LPF V"@,
        "LPF mV"@,
        "LPF µA"@,
        "LPF mA"@,
        "LPF A"@,
        "NCV"@,
        "Peak V"@,
        "Peak mV"@,
    ]
}

impl Mode {
    /// The byte that identifies this mode.
    pub open spec fn byte_of(self) -> u8 {
        match self {
            Mode::DcV => 0x00,
            Mode::AcV => 0x01,
            Mode::DcMv => 0x02,
            Mode::AcMv => 0x03,
            Mode::Ohm => 0x04,
            Mode::Capacitance => 0x05,
            Mode::Hz => 0x06,
            Mode::DutyCycle => 0x07,
            Mode::TempC => 0x08,
            Mode::TempF => 0x09,
            Mode::Diode => 0x0A,
            Mode::Continuity => 0x0B,
            Mode::DcUa => 0x0C,
            Mode::AcUa => 0x0D,
            Mode::DcMa => 0x0E,
            Mode::AcMa => 0x0F,
            Mode::DcA => 0x10,
            Mode::AcA => 0x11,
            Mode::AcDcV => 0x12,
            Mode::AcDcMv => 0x13,
            Mode::AcDcUa => 0x14,
            Mode::AcDcMa => 0x15,
            Mode::AcDcA => 0x16,
            Mode::LpfV => 0x17,
            Mode::LpfMv => 0x18,
            Mode::LpfUa => 0x19,
            Mode::LpfMa => 0x1A,
            Mode::LpfA => 0x1B,
            Mode::Ncv => 0x1C,
            Mode::PeakV => 0x1D,
            Mode::PeakMv => 0x1E,
        }
    }

    /// The text shown for this mode.
    pub open spec fn label(self) -> Seq<char> {
        match self {
            Mode::DcV => "DC V"@,
            Mode::AcV => "AC V"@,
            Mode::DcMv => "DC mV"@,
            Mode::AcMv => "AC mV"@,
            Mode::Ohm => "Ω"@,
            Mode::Capacitance => "Capacitance"@,
            Mode::Hz => "Hz"@,
            Mode::DutyCycle => "Duty Cycle"@,
            Mode::TempC => "°C"@,
            Mode::TempF => "°F"@,
            Mode::Diode => "Diode"@,
            Mode::Continuity => "Continuity"@,
            Mode::DcUa => "DC µA"@,
            Mode::AcUa => "AC µA"@,
            Mode::DcMa => "DC mA"@,
            Mode::AcMa => "AC mA"@,
            Mode::DcA => "DC A"@,
            Mode::AcA => "AC A"@,
            Mode::AcDcV => "AC+DC V"@,
            Mode::AcDcMv => "AC+DC mV"@,
            Mode::AcDcUa => "AC+DC µA"@,
            Mode::AcDcMa => "AC+DC mA"@,
            Mode::AcDcA => "AC+DC A"@,
            Mode::LpfV => "LPF V"@,
            Mode::LpfMv => "LPF mV"@,
            Mode::LpfUa => "LPF µA"@,
            Mode::LpfMa => "LPF mA"@,
            Mode::LpfA => "LPF A"@,
            Mode::Ncv => "NCV"@,
            Mode::PeakV => "Peak V"@,
            Mode::PeakMv => "Peak mV"@,
        }
    }

    /// The byte that identifies this mode.
    pub fn code(self) -> (b: u8)
        ensures
            b == self.byte_of(),
    {
        match self {
            Mode::DcV => 0x00,
            Mode::AcV => 0x01,
            Mode::DcMv => 0x02,
            Mode::AcMv => 0x03,
            Mode::Ohm => 0x04,
            Mode::Capacitance => 0x05,
            Mode::Hz => 0x06,
            Mode::DutyCycle => 0x07,
            Mode::TempC => 0x08,
            Mode::TempF => 0x09,
            Mode::Diode => 0x0A,
            Mode::Continuity => 0x0B,
            Mode::DcUa => 0x0C,
            Mode::AcUa => 0x0D,
            Mode::DcMa => 0x0E,
            Mode::AcMa => 0x0F,
            Mode::DcA => 0x10,
            Mode::AcA => 0x11,
            Mode::AcDcV => 0x12,
            Mode::AcDcMv => 0x13,
            Mode::AcDcUa => 0x14,
            Mode::AcDcMa => 0x15,
            Mode::AcDcA => 0x16,
            Mode::LpfV => 0x17,
            Mode::LpfMv => 0x18,
            Mode::LpfUa => 0x19,
            Mode::LpfMa => 0x1A,
            Mode::LpfA => 0x1B,
            Mode::Ncv => 0x1C,
            Mode::PeakV => 0x1D,
            Mode::PeakMv => 0x1E,
        }
    }

    /// The mode identified by byte `b`; `Error::UnknownMode(b)` when no mode
    /// has that byte, which is exactly when `b > 0x1E`.
    pub fn from_byte(b: u8) -> (r: Result<Self, Error>)
        ensures
            match r {
                Ok(m) => b <= 0x1E && m.byte_of() == b && m.label() == labels_by_byte()[b as int],
                Err(e) => b > 0x1E && (e matches Error::UnknownMode(x) && x == b),
            },
    {
        match b {
            0x00 => Ok(Mode::DcV),
            0x01 => Ok(Mode::AcV),
            0x02 => Ok(Mode::DcMv),
            0x03 => Ok(Mode::AcMv),
            0x04 => Ok(Mode::Ohm),
            0x05 => Ok(Mode::Capacitance),
            0x06 => Ok(Mode::Hz),
            0x07 => Ok(Mode::DutyCycle),
            0x08 => Ok(Mode::TempC),
            0x09 => Ok(Mode::TempF),
            0x0A => Ok(Mode::Diode),
            0x0B => Ok(Mode::Continuity),
            0x0C => Ok(Mode::DcUa),
            0x0D => Ok(Mode::AcUa),
            0x0E => Ok(Mode::DcMa),
            0x0F => Ok(Mode::AcMa),
            0x10 => Ok(Mode::DcA),
            0x11 => Ok(Mode::AcA),
            0x12 => Ok(Mode::AcDcV),
            0x13 => Ok(Mode::AcDcMv),
            0x14 => Ok(Mode::AcDcUa),
            0x15 => Ok(Mode::AcDcMa),
            0x16 => Ok(Mode::AcDcA),
            0x17 => Ok(Mode::LpfV),
            0x18 => Ok(Mode::LpfMv),
            0x19 => Ok(Mode::LpfUa),
            0x1A => Ok(Mode::LpfMa),
            0x1B => Ok(Mode::LpfA),
            0x1C => Ok(Mode::Ncv),
            0x1D => Ok(Mode::PeakV),
            0x1E => Ok(Mode::PeakMv),
            _ => Err(Error::UnknownMode(b)),
        }
    }

    /// The text shown for this mode (e.g. "DC V", "Ω", "AC+DC mA").
    pub fn to_string(&self) -> (s: String)
        ensures
            s@ == self.label(),
    {
        match self {
            Mode::DcV => String::from_str("DC V"),
            Mode::AcV => String::from_str("AC V"),
            Mode::DcMv => String::from_str("DC mV"),
            Mode::AcMv => String::from_str("AC mV"),
            Mode::Ohm => String::from_str("Ω"),
            Mode::Capacitance => String::from_str("Capacitance"),
            Mode::Hz => String::from_str("Hz"),
            Mode::DutyCycle => String::from_str("Duty Cycle"),
            Mode::TempC => String::from_str("°C"),
            Mode::TempF => String::from_str("°F"),
            Mode::Diode => String::from_str("Diode"),
            Mode::Continuity => String::from_str("Continuity"),
            Mode::DcUa => String::from_str("DC µA"),
            Mode::AcUa => String::from_str("AC µA"),
            Mode::DcMa => String::from_str("DC mA"),
            Mode::AcMa => String::from_str("AC mA"),
            Mode::DcA => String::from_str("DC A"),
            Mode::AcA => String::from_str("AC A"),
            Mode::AcDcV => String::from_str("AC+DC V"),
            Mode::AcDcMv => String::from_str("AC+DC mV"),
            Mode::AcDcUa => String::from_str("AC+DC µA"),
            Mode::AcDcMa => String::from_str("AC+DC mA"),
            Mode::AcDcA => String::from_str("AC+DC A"),
            Mode::LpfV => String::from_str("LPF V"),
            Mode::LpfMv => String::from_str("LPF mV"),
            Mode::LpfUa => String::from_str("LPF µA"),
            Mode::LpfMa => String::from_str("LPF mA"),
            Mode::LpfA => String::from_str("LPF A"),
            Mode::Ncv => String::from_str("NCV"),
            Mode::PeakV => String::from_str("Peak V"),
            Mode::PeakMv => String::from_str("Peak mV"),
        }
    }
}

/// Distinct modes have distinct bytes, and every byte up to 0x1E belongs to
/// a mode; so a mode byte names exactly one mode, and `from_byte` gives back
/// the mode of any mode's byte.
pub proof fn lemma_mode_bytes(m1: Mode, m2: Mode, b: u8)
    ensures
        m1.byte_of() <= 0x1E,
        m1.byte_of() == m2.byte_of() ==> m1 == m2,
        b <= 0x1E ==> exists|m: Mode| m.byte_of() == b,
{
    if b <= 0x1E {
        let m = match b {
            0x00 => Mode::DcV,
            0x01 => Mode::AcV,
            0x02 => Mode::DcMv,
            0x03 => Mode::AcMv,
            0x04 => Mode::Ohm,
            0x05 => Mode::Capacitance,
            0x06 => Mode::Hz,
            0x07 => Mode::DutyCycle,
            0x08 => Mode::TempC,
            0x09 => Mode::TempF,
            0x0A => Mode::Diode,
            0x0B => Mode::Continuity,
            0x0C => Mode::DcUa,
            0x0D => Mode::AcUa,
            0x0E => Mode::DcMa,
            0x0F => Mode::AcMa,
            0x10 => Mode::DcA,
            0x11 => Mode::AcA,
            0x12 => Mode::AcDcV,
            0x13 => Mode::AcDcMv,
            0x14 => Mode::AcDcUa,
            0x15 => Mode::AcDcMa,
            0x16 => Mode::AcDcA,
            0x17 => Mode::LpfV,
            0x18 => Mode::LpfMv,
            0x19 => Mode::LpfUa,
            0x1A => Mode::LpfMa,
            0x1B => Mode::LpfA,
            0x1C => Mode::Ncv,
            0x1D => Mode::PeakV,
            _ => Mode::PeakMv,
        };
        assert(m.byte_of() == b);
    }
}

/// Every mode sits at its byte in the protocol's table: the label of the
/// mode with byte `b` is entry `b` of [`labels_by_byte`] (0x00 DC V, 0x01 AC V,
/// 0x02 DC mV, 0x03 AC mV, ... 0x1E Peak mV), so decoding a byte gives the
/// mode the protocol assigns to it.
pub proof fn lemma_mode_byte_order(m: Mode)
    ensures
        m.byte_of() < labels_by_byte().len(),
        labels_by_byte()[m.byte_of() as int] == m.label(),
{
}

} // verus!
