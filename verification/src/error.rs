use vstd::prelude::*;

verus! {

/// The HID error type of the `hidapi` crate, carried through unchanged.
#[verifier::external_type_specification]
#[verifier::external_body]
pub struct ExHidError(hidapi::HidError);

/// Errors of the library.
#[derive(Debug)]
pub enum Error {
    /// An error reported by the HID layer.
    Hid(hidapi::HidError),
    /// No device with the given vendor and product id was found.
    DeviceNotFound { vid: u16, pid: u16 },
    /// The device answered with something that is not a valid response.
    InvalidResponse(String),
    /// A frame's checksum did not match: `expected` is the checksum carried
    /// by the frame, `actual` the one computed over its bytes.
    ChecksumMismatch { expected: u16, actual: u16 },
    /// No response arrived in time.
    Timeout,
    /// A mode byte that names no known mode.
    UnknownMode(u8),
}

/// Result type of the library.
pub type Result<T> = std::result::Result<T, Error>;

} // verus!
