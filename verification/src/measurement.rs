use vstd::prelude::*;

verus! {

/// The value shown on the meter's display.
#[derive(Debug, Clone, Copy, PartialEq, Eq)]
pub enum MeasuredValue {
    /// A numeric reading, held as the IEEE-754 bit pattern of its `f64`
    /// value (`f64::to_bits`), so that the value travels unchanged.
    Normal(u64),
    /// The display shows "OL" (over load).
    Overload,
    /// Non-contact voltage detector level.
    NcvLevel(u8),
}

/// Status flags of a decoded measurement.
#[derive(Debug, Clone, Copy, Default, PartialEq, Eq)]
pub struct MeasurementFlags {
    pub hold: bool,
    pub rel: bool,
    pub min: bool,
    pub max: bool,
    pub auto_range: bool,
    pub low_battery: bool,
    pub hv_warning: bool,
    pub dc: bool,
    pub peak_max: bool,
    pub peak_min: bool,
}

/// One decoded reading of the meter.
#[derive(Debug, Clone)]
pub struct Measurement {
    /// Measurement mode, as shown to the user (e.g. "DC V").
    pub mode: String,
    /// The reading.
    pub value: MeasuredValue,
    /// Unit of the reading (e.g. "mV").
    pub unit: String,
    /// Range label (e.g. "22V"), empty when the mode has none.
    pub range_label: String,
    /// The display text exactly as the meter sent it.
    pub display_raw: String,
    /// Status flags.
    pub flags: MeasurementFlags,
}

} // verus!
