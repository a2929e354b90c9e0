use vstd::prelude::*;

use crate::error::Result;

verus! {

/// Abstraction over HID transport for testability.
pub trait Transport {
    /// Write data to the device (interrupt OUT report).
    fn write(&self, data: &[u8]) -> Result<()>;

    /// Read data from the device (interrupt IN report).
    /// Returns the number of bytes read, or 0 on timeout.
    fn read_timeout(&self, buf: &mut [u8], timeout_ms: i32) -> Result<usize>;

    /// Send a HID feature report.
    fn send_feature_report(&self, data: &[u8]) -> Result<()>;
}

} // verus!
