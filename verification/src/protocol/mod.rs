//! Protocol layer: the `AB CD` frame format whose length byte counts the
//! payload only, the device families, and the traits that device protocols
//! implement.

pub mod family;
pub mod framing;

pub use self::family::DeviceFamily;

use vstd::prelude::*;

use crate::error::{Error, Result};
use crate::measurement::Measurement;
use crate::transport::Transport;
use self::framing::{
    be16, be_bytes, byte_sum, checksum16, copy_range, find_header, first_header,
    lemma_be_le_bytes, lemma_first_header, lemma_first_header_after_garbage,
    lemma_first_header_extend, frame_within, no_header, result_is, sum16, FrameOutcome,
};

verus! {

/// Header bytes for all messages.
pub const HEADER: [u8; 2] = [0xAB, 0xCD];

/// Expected payload length for a measurement response.
pub const MEASUREMENT_PAYLOAD_LEN: usize = 14;

/// The frame format read by [`extract_frame`]: `AB CD len payload chk_hi
/// chk_lo`, where `len` counts the payload only, at least 6 bytes follow
/// the header's start, and the checksum is the sum, modulo 2^16, of all
/// bytes before it.
pub open spec fn extract_frame_outcome(s: Seq<u8>) -> FrameOutcome {
    match first_header(s) {
        None => FrameOutcome::Incomplete,
        Some(h) => {
            if s.len() - h < 6 {
                FrameOutcome::Incomplete
            } else {
                let payload_len = s[h + 2] as int;
                let frame_len = payload_len + 5;
                if s.len() - h < frame_len {
                    FrameOutcome::Incomplete
                } else {
                    let computed = checksum16(s.subrange(h, h + frame_len - 2));
                    let received = be16(s[h + frame_len - 2], s[h + frame_len - 1]);
                    if computed != received {
                        FrameOutcome::Mismatch { expected: received, actual: computed }
                    } else {
                        FrameOutcome::Frame {
                            payload: s.subrange(h + 3, h + 3 + payload_len),
                            consumed: h + frame_len,
                        }
                    }
                }
            }
        },
    }
}

/// The frame, in the format read by [`extract_frame`], that carries `payload`.
pub open spec fn frame_bytes(payload: Seq<u8>) -> Seq<u8> {
    let body = seq![0xABu8, 0xCDu8, payload.len() as u8] + payload;
    body + be_bytes(checksum16(body))
}

/// A frame with a non-empty payload, behind bytes that hold no header, is
/// found whole by [`extract_frame`]. (A frame with an empty payload is only
/// five bytes long, under the six that the extractor waits for.)
pub proof fn lemma_extract_frame_roundtrip(garbage: Seq<u8>, payload: Seq<u8>)
    requires
        no_header(garbage),
        1 <= payload.len() <= 255,
    ensures
        extract_frame_outcome(garbage + frame_bytes(payload)) == (FrameOutcome::Frame {
            payload,
            consumed: (garbage.len() + payload.len() + 5) as int,
        }),
{
    let f = frame_bytes(payload);
    let s = garbage + f;
    let h = garbage.len() as int;
    let body = seq![0xABu8, 0xCDu8, payload.len() as u8] + payload;
    lemma_first_header_after_garbage(garbage, f);
    lemma_be_le_bytes(checksum16(body));
    assert(s[h + 2] == payload.len() as u8);
    assert(s.subrange(h, h + payload.len() + 3) =~= body);
    assert(s.subrange(h + 3, h + 3 + payload.len()) =~= payload);
    assert(s[h + payload.len() + 3] == be_bytes(checksum16(body))[0]);
    assert(s[h + payload.len() + 4] == be_bytes(checksum16(body))[1]);
}

/// Once the buffer holds a whole frame (valid or not), bytes that arrive
/// after it do not change what [`extract_frame`] extracts.
pub proof fn lemma_extract_frame_extend(s: Seq<u8>, t: Seq<u8>)
    requires
        !(extract_frame_outcome(s) is Incomplete),
    ensures
        extract_frame_outcome(s + t) == extract_frame_outcome(s),
{
    lemma_first_header_extend(s, t);
    lemma_first_header(s);
    let h = first_header(s)->0;
    let u = s + t;
    let n = s[h + 2] as int + 5;
    assert(u.subrange(h, h + n - 2) =~= s.subrange(h, h + n - 2));
    assert(u.subrange(h + 3, h + n - 2) =~= s.subrange(h + 3, h + n - 2));
}

/// Every frame that [`extract_frame`] finds lies inside the buffer.
pub proof fn lemma_extract_frame_within_buffer(s: Seq<u8>)
    ensures
        frame_within(s, extract_frame_outcome(s)),
{
    lemma_first_header(s);
}

/// The checksum decides between a payload and a mismatch: once the first
/// frame is whole, a stored big-endian value that differs from the 16-bit sum
/// of the bytes before it in any bit gives a mismatch carrying both values,
/// and only a stored value equal to that sum gives the payload.
pub proof fn lemma_extract_frame_checksum_decides(s: Seq<u8>, h: int)
    requires
        first_header(s) == Some(h),
        s.len() - h >= 6,
        s.len() - h >= s[h + 2] + 5,
    ensures
        ({
            let n = s[h + 2] as int + 5;
            let stored = s[h + n - 2] as int * 256 + s[h + n - 1] as int;
            let sum = byte_sum(s.subrange(h, h + n - 2)) as int % 65536;
            &&& stored != sum ==> extract_frame_outcome(s) == (FrameOutcome::Mismatch {
                expected: stored as u16,
                actual: sum as u16,
            })
            &&& stored == sum ==> extract_frame_outcome(s) == (FrameOutcome::Frame {
                payload: s.subrange(h + 3, h + n - 2),
                consumed: h + n,
            })
        }),
{
}

/// Find a complete framed response in the buffer.
///
/// Scans for `AB CD` header, reads the length byte, validates the checksum,
/// and returns the payload bytes (excluding header, length, and checksum).
///
/// Returns `Ok(Some((payload, consumed)))` if a valid frame is found,
/// where `consumed` is how many bytes to drain from the buffer.
/// Returns `Ok(None)` if the buffer doesn't yet contain a complete frame.
/// Returns `Err` if a frame is found but the checksum is invalid.
pub fn extract_frame(buf: &[u8]) -> (r: Result<Option<(Vec<u8>, usize)>>)
    ensures
        result_is(r, extract_frame_outcome(buf@)),
{
    let start = match find_header(buf) {
        None => return Ok(None),
        Some(start) => start,
    };
    let rem = buf.len() - start;
    if rem < 6 {
        return Ok(None);
    }
    let payload_len = buf[start + 2] as usize;
    let frame_len = payload_len + 5;
    if rem < frame_len {
        return Ok(None);
    }
    let end = start + frame_len;
    let computed = sum16(buf, start, end - 2);
    let received: u16 = buf[end - 2] as u16 * 256 + buf[end - 1] as u16;
    if computed != received {
        return Err(Error::ChecksumMismatch { expected: received, actual: computed });
    }
    let payload = copy_range(buf, start + 3, start + 3 + payload_len);
    Ok(Some((payload, end)))
}

/// Protocol stability level.
#[derive(Debug, Clone, Copy, PartialEq, Eq)]
pub enum Stability {
    /// Verified against real hardware.
    Verified,
    /// Based on reverse engineering, not yet verified against real hardware.
    Experimental,
}

/// Static profile information about a device.
pub struct DeviceProfile {
    pub family_name: &'static str,
    pub model_name: &'static str,
    pub stability: Stability,
    pub supported_commands: &'static [&'static str],
}

/// Each device family implements this trait. Object-safe.
///
/// The Protocol owns its internal state (rx buffer, streaming trigger state, etc).
/// I/O is performed through the Transport reference passed to each method.
pub trait Protocol: Send {
    /// Post-transport initialization (e.g. send streaming trigger, purge FIFOs).
    fn init(&mut self, transport: &dyn Transport) -> Result<()>;

    /// Get the next measurement.
    /// For polled protocols: sends request + reads response.
    /// For streaming protocols: reads the next frame from the stream.
    fn request_measurement(&mut self, transport: &dyn Transport) -> Result<Measurement>;

    /// Send a named command ("hold", "range", "auto", etc.).
    /// Returns an error for unknown commands.
    fn send_command(&mut self, transport: &dyn Transport, command: &str) -> Result<()>;

    /// Request device name. Returns None if the protocol doesn't support it.
    fn get_name(&mut self, transport: &dyn Transport) -> Result<Option<String>>;

    /// Static device profile information.
    fn profile(&self) -> &DeviceProfile;
}

} // verus!
