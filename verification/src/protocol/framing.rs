//! Shared frame extraction functions for protocols using `AB CD` headers.
//!
//! Every extractor scans a receive buffer for the first `AB CD` header,
//! checks that a whole frame follows it, verifies the frame's 16-bit
//! checksum and hands back the payload together with the number of bytes
//! to drain from the buffer. Each one is specified by a spec function that
//! says, for every buffer, which of the three outcomes it produces.

use vstd::prelude::*;
use vstd::slice::{slice_subrange, slice_to_vec};

use crate::error::{Error, Result};

verus! {

/// Header bytes shared across all UNI-T protocols.
pub const HEADER: [u8; 2] = [0xAB, 0xCD];

/// Expected payload length for a UT61E+ measurement response.
pub const UT61EPLUS_MEASUREMENT_PAYLOAD_LEN: usize = 14;

// ---------------------------------------------------------------------
// Model
// ---------------------------------------------------------------------

/// `AB CD` starts at index `i` of `s`.
pub open spec fn header_at(s: Seq<u8>, i: int) -> bool {
    0 <= i && i + 1 < s.len() && s[i] == 0xABu8 && s[i + 1] == 0xCDu8
}

/// The first index at or after `k` where a header starts, if any.
pub open spec fn header_from(s: Seq<u8>, k: int) -> Option<int>
    decreases s.len() - k,
{
    if k < 0 || k + 1 >= s.len() {
        None
    } else if header_at(s, k) {
        Some(k)
    } else {
        header_from(s, k + 1)
    }
}

/// The first index of `s` where a header starts, if any.
pub open spec fn first_header(s: Seq<u8>) -> Option<int> {
    header_from(s, 0)
}

/// The sum of the bytes of `s`, as a mathematical integer.
pub open spec fn byte_sum(s: Seq<u8>) -> nat
    decreases s.len(),
{
    if s.len() == 0 {
        0
    } else {
        byte_sum(s.drop_last()) + s.last() as nat
    }
}

/// The 16-bit checksum of `s`: the sum of its bytes modulo 2^16.
pub open spec fn checksum16(s: Seq<u8>) -> u16 {
    (byte_sum(s) % 65536) as u16
}

/// The 16-bit value whose big-endian bytes are `hi`, `lo`.
pub open spec fn be16(hi: u8, lo: u8) -> u16 {
    (hi * 256 + lo) as u16
}

/// The 16-bit value whose little-endian bytes are `lo`, `hi`.
pub open spec fn le16(lo: u8, hi: u8) -> u16 {
    (hi * 256 + lo) as u16
}

/// What a frame extractor makes of a buffer.
pub enum FrameOutcome {
    /// No complete frame yet (no header, or too few bytes after it).
    Incomplete,
    /// A complete frame whose checksum is wrong.
    Mismatch { expected: u16, actual: u16 },
    /// A valid frame: its payload, and how many bytes to drain from the buffer.
    Frame { payload: Seq<u8>, consumed: int },
}

/// The extractor's result `r` is the outcome `o`.
pub open spec fn result_is(r: Result<Option<(Vec<u8>, usize)>>, o: FrameOutcome) -> bool {
    match o {
        FrameOutcome::Incomplete => r matches Ok(None),
        FrameOutcome::Mismatch { expected, actual } => match r {
            Err(Error::ChecksumMismatch { expected: e, actual: a }) => e == expected && a == actual,
            _ => false,
        },
        FrameOutcome::Frame { payload, consumed } => match r {
            Ok(Some((p, c))) => p@ == payload && c == consumed,
            _ => false,
        },
    }
}

/// UT61E+ framing: `AB CD len payload chk_hi chk_lo`, where `len` counts the
/// payload and the two checksum bytes, and the checksum is the sum of all
/// bytes before it.
pub open spec fn abcd_be16_outcome(s: Seq<u8>) -> FrameOutcome {
    match first_header(s) {
        None => FrameOutcome::Incomplete,
        Some(h) => {
            if s.len() - h < 5 {
                FrameOutcome::Incomplete
            } else if s[h + 2] < 2 {
                FrameOutcome::Incomplete
            } else {
                let len_byte = s[h + 2] as int;
                let frame_len = 3 + len_byte;
                if s.len() - h < frame_len {
                    FrameOutcome::Incomplete
                } else {
                    let computed = checksum16(s.subrange(h, h + frame_len - 2));
                    let received = be16(s[h + frame_len - 2], s[h + frame_len - 1]);
                    if computed != received {
                        FrameOutcome::Mismatch { expected: received, actual: computed }
                    } else {
                        FrameOutcome::Frame {
                            payload: s.subrange(h + 3, h + 3 + len_byte - 2),
                            consumed: h + frame_len,
                        }
                    }
                }
            }
        },
    }
}

/// UT8803 framing: a fixed 21-byte frame `AB CD b2 02 ... chk_hi chk_lo`
/// whose fourth byte is 0x02, with the checksum of its first 19 bytes
/// stored big-endian in the last two; the payload is bytes 2..19.
pub open spec fn ut8803_outcome(s: Seq<u8>) -> FrameOutcome {
    match first_header(s) {
        None => FrameOutcome::Incomplete,
        Some(h) => {
            if s.len() - h < 21 {
                FrameOutcome::Incomplete
            } else if s[h + 3] != 0x02u8 {
                FrameOutcome::Incomplete
            } else {
                let computed = checksum16(s.subrange(h, h + 19));
                let received = be16(s[h + 19], s[h + 20]);
                if computed != received {
                    FrameOutcome::Mismatch { expected: received, actual: computed }
                } else {
                    FrameOutcome::Frame { payload: s.subrange(h + 2, h + 19), consumed: h + 21 }
                }
            }
        },
    }
}

/// UT171 framing: `AB CD len payload chk_lo chk_hi`, where `len` counts the
/// payload only and the checksum is the sum of the length byte and the
/// payload, stored little-endian.
pub open spec fn abcd_1byte_le16_outcome(s: Seq<u8>) -> FrameOutcome {
    match first_header(s) {
        None => FrameOutcome::Incomplete,
        Some(h) => {
            if s.len() - h < 5 {
                FrameOutcome::Incomplete
            } else {
                let payload_len = s[h + 2] as int;
                let frame_len = payload_len + 5;
                if s.len() - h < frame_len {
                    FrameOutcome::Incomplete
                } else {
                    let computed = checksum16(s.subrange(h + 2, h + frame_len - 2));
                    let received = le16(s[h + frame_len - 2], s[h + frame_len - 1]);
                    if computed != received {
                        FrameOutcome::Mismatch { expected: received, actual: computed }
                    } else {
                        FrameOutcome::Frame {
                            payload: s.subrange(h + 3, h + 3 + payload_len),
                            consumed: h + frame_len,
                        }
                    }
                }
            }
        },
    }
}

/// UT181A framing: `AB CD len_lo len_hi payload chk_lo chk_hi`, where the
/// little-endian length counts the payload and the two checksum bytes, and
/// the checksum is the sum of the length field and the payload, stored
/// little-endian.
pub open spec fn abcd_2byte_le16_outcome(s: Seq<u8>) -> FrameOutcome {
    match first_header(s) {
        None => FrameOutcome::Incomplete,
        Some(h) => {
            if s.len() - h < 6 {
                FrameOutcome::Incomplete
            } else if le16(s[h + 2], s[h + 3]) < 2 {
                FrameOutcome::Incomplete
            } else {
                let payload_len = le16(s[h + 2], s[h + 3]) - 2;
                let frame_len = payload_len + 6;
                if s.len() - h < frame_len {
                    FrameOutcome::Incomplete
                } else {
                    let computed = checksum16(s.subrange(h + 2, h + frame_len - 2));
                    let received = le16(s[h + frame_len - 2], s[h + frame_len - 1]);
                    if computed != received {
                        FrameOutcome::Mismatch { expected: received, actual: computed }
                    } else {
                        FrameOutcome::Frame {
                            payload: s.subrange(h + 4, h + 4 + payload_len),
                            consumed: h + frame_len,
                        }
                    }
                }
            }
        },
    }
}

// ---------------------------------------------------------------------
// Facts about the model
// ---------------------------------------------------------------------

/// The header search finds the earliest header at or after `k`, and finds
/// none exactly when there is none.
pub proof fn lemma_header_from(s: Seq<u8>, k: int)
    requires
        0 <= k,
    ensures
        header_from(s, k) matches Some(i) ==> {
            &&& k <= i
            &&& header_at(s, i)
            &&& forall|j: int| k <= j < i ==> !header_at(s, j)
        },
        header_from(s, k) is None ==> forall|j: int| k <= j ==> !header_at(s, j),
    decreases s.len() - k,
{
    if k + 1 < s.len() && !header_at(s, k) {
        lemma_header_from(s, k + 1);
    }
}

/// The first header of a buffer is the earliest header in it: the bytes
/// `AB CD` start there, and they start nowhere before it; when there is no
/// first header, `AB` is never followed by `CD`.
pub proof fn lemma_first_header(s: Seq<u8>)
    ensures
        first_header(s) matches Some(i) ==> {
            &&& header_at(s, i)
            &&& 0 <= i && i + 1 < s.len() && s[i] == 0xABu8 && s[i + 1] == 0xCDu8
            &&& forall|j: int| 0 <= j < i ==> !header_at(s, j)
            &&& forall|j: int| 0 <= j < i ==> !(#[trigger] s[j] == 0xABu8 && s[j + 1] == 0xCDu8)
        },
        first_header(s) is None ==> forall|j: int| !header_at(s, j),
        first_header(s) is None ==> forall|j: int|
            0 <= j && j + 1 < s.len() ==> !(#[trigger] s[j] == 0xABu8 && s[j + 1] == 0xCDu8),
{
    lemma_header_from(s, 0);
    if let Some(i) = first_header(s) {
        assert forall|j: int| 0 <= j < i implies !(#[trigger] s[j] == 0xABu8 && s[j + 1] == 0xCDu8) by {
            assert(!header_at(s, j));
        }
    } else {
        assert forall|j: int| 0 <= j && j + 1 < s.len() implies !(#[trigger] s[j] == 0xABu8 && s[j + 1]
            == 0xCDu8) by {
            assert(!header_at(s, j));
        }
    }
}

/// A header at `i` with none before it is the first header.
pub proof fn lemma_first_header_at(s: Seq<u8>, i: int)
    requires
        header_at(s, i),
        forall|j: int| 0 <= j < i ==> !header_at(s, j),
    ensures
        first_header(s) == Some(i),
{
    lemma_first_header(s);
    match first_header(s) {
        Some(f) => {
            if f < i {
                assert(!header_at(s, f));
            } else if i < f {
                assert(!header_at(s, i));
            }
        },
        None => {
            assert(!header_at(s, i));
        },
    }
}

/// Appending bytes after a buffer does not move its first header.
pub proof fn lemma_first_header_extend(s: Seq<u8>, t: Seq<u8>)
    requires
        first_header(s) is Some,
    ensures
        first_header(s + t) == first_header(s),
{
    lemma_first_header(s);
    let i = first_header(s)->0;
    assert(header_at(s + t, i));
    assert forall|j: int| 0 <= j < i implies !header_at(s + t, j) by {
        assert(!header_at(s, j));
    }
    lemma_first_header_at(s + t, i);
}

/// The sum of a subrange grows by the next byte.
proof fn lemma_byte_sum_step(s: Seq<u8>, a: int, i: int)
    requires
        0 <= a <= i < s.len(),
    ensures
        byte_sum(s.subrange(a, i + 1)) == byte_sum(s.subrange(a, i)) + s[i],
{
    assert(s.subrange(a, i + 1).drop_last() =~= s.subrange(a, i));
}

// ---------------------------------------------------------------------
// Frame construction and the laws of the extractors
// ---------------------------------------------------------------------

/// The two big-endian bytes of `v`.
pub open spec fn be_bytes(v: u16) -> Seq<u8> {
    seq![(v / 256) as u8, (v % 256) as u8]
}

/// The two little-endian bytes of `v`.
pub open spec fn le_bytes(v: u16) -> Seq<u8> {
    seq![(v % 256) as u8, (v / 256) as u8]
}

/// The UT61E+ frame that carries `payload`.
pub open spec fn abcd_be16_frame(payload: Seq<u8>) -> Seq<u8> {
    let body = seq![0xABu8, 0xCDu8, (payload.len() + 2) as u8] + payload;
    body + be_bytes(checksum16(body))
}

/// The UT8803 frame whose bytes 2..19 are `body`.
pub open spec fn ut8803_frame(body: Seq<u8>) -> Seq<u8> {
    let data = seq![0xABu8, 0xCDu8] + body;
    data + be_bytes(checksum16(data))
}

/// The UT171 frame that carries `payload`.
pub open spec fn abcd_1byte_le16_frame(payload: Seq<u8>) -> Seq<u8> {
    let covered = seq![payload.len() as u8] + payload;
    seq![0xABu8, 0xCDu8] + covered + le_bytes(checksum16(covered))
}

/// The UT181A frame that carries `payload`.
pub open spec fn abcd_2byte_le16_frame(payload: Seq<u8>) -> Seq<u8> {
    let covered = le_bytes((payload.len() + 2) as u16) + payload;
    seq![0xABu8, 0xCDu8] + covered + le_bytes(checksum16(covered))
}

/// Bytes that hold no header.
pub open spec fn no_header(s: Seq<u8>) -> bool {
    forall|j: int| !header_at(s, j)
}

/// Behind bytes that hold no header, a buffer that starts with a header has
/// its first header right after them.
pub proof fn lemma_first_header_after_garbage(garbage: Seq<u8>, f: Seq<u8>)
    requires
        no_header(garbage),
        f.len() >= 2,
        f[0] == 0xABu8,
        f[1] == 0xCDu8,
    ensures
        first_header(garbage + f) == Some(garbage.len() as int),
{
    let s = garbage + f;
    let h = garbage.len() as int;
    assert(header_at(s, h));
    assert forall|j: int| 0 <= j < h implies !header_at(s, j) by {
        if j + 1 < h {
            assert(!header_at(garbage, j));
        } else {
            assert(s[j + 1] == f[0]);
        }
    }
    lemma_first_header_at(s, h);
}

pub(crate) proof fn lemma_be_le_bytes(v: u16)
    ensures
        be16(be_bytes(v)[0], be_bytes(v)[1]) == v,
        le16(le_bytes(v)[0], le_bytes(v)[1]) == v,
{
}

/// A UT61E+ frame behind bytes that hold no header is found whole: the
/// extractor gives back its payload and drains everything up to its end.
pub proof fn lemma_abcd_be16_roundtrip(garbage: Seq<u8>, payload: Seq<u8>)
    requires
        no_header(garbage),
        payload.len() <= 253,
    ensures
        abcd_be16_outcome(garbage + abcd_be16_frame(payload)) == (FrameOutcome::Frame {
            payload,
            consumed: (garbage.len() + payload.len() + 5) as int,
        }),
{
    let f = abcd_be16_frame(payload);
    let s = garbage + f;
    let h = garbage.len() as int;
    let body = seq![0xABu8, 0xCDu8, (payload.len() + 2) as u8] + payload;
    lemma_first_header_after_garbage(garbage, f);
    lemma_be_le_bytes(checksum16(body));
    assert(s[h + 2] == (payload.len() + 2) as u8);
    assert(s.subrange(h, h + payload.len() + 3) =~= body);
    assert(s.subrange(h + 3, h + 3 + payload.len()) =~= payload);
    assert(s[h + payload.len() + 3] == be_bytes(checksum16(body))[0]);
    assert(s[h + payload.len() + 4] == be_bytes(checksum16(body))[1]);
}

/// A UT8803 frame behind bytes that hold no header is found whole.
pub proof fn lemma_ut8803_roundtrip(garbage: Seq<u8>, body: Seq<u8>)
    requires
        no_header(garbage),
        body.len() == 17,
        body[1] == 0x02u8,
    ensures
        ut8803_outcome(garbage + ut8803_frame(body)) == (FrameOutcome::Frame {
            payload: body,
            consumed: (garbage.len() + 21) as int,
        }),
{
    let f = ut8803_frame(body);
    let s = garbage + f;
    let h = garbage.len() as int;
    let data = seq![0xABu8, 0xCDu8] + body;
    lemma_first_header_after_garbage(garbage, f);
    lemma_be_le_bytes(checksum16(data));
    assert(s[h + 3] == body[1]);
    assert(s.subrange(h, h + 19) =~= data);
    assert(s.subrange(h + 2, h + 19) =~= body);
    assert(s[h + 19] == be_bytes(checksum16(data))[0]);
    assert(s[h + 20] == be_bytes(checksum16(data))[1]);
}

/// A UT171 frame behind bytes that hold no header is found whole.
pub proof fn lemma_abcd_1byte_le16_roundtrip(garbage: Seq<u8>, payload: Seq<u8>)
    requires
        no_header(garbage),
        payload.len() <= 255,
    ensures
        abcd_1byte_le16_outcome(garbage + abcd_1byte_le16_frame(payload)) == (
        FrameOutcome::Frame { payload, consumed: (garbage.len() + payload.len() + 5) as int }),
{
    let f = abcd_1byte_le16_frame(payload);
    let s = garbage + f;
    let h = garbage.len() as int;
    let covered = seq![payload.len() as u8] + payload;
    lemma_first_header_after_garbage(garbage, f);
    lemma_be_le_bytes(checksum16(covered));
    assert(s[h + 2] == payload.len() as u8);
    assert(s.subrange(h + 2, h + payload.len() + 3) =~= covered);
    assert(s.subrange(h + 3, h + 3 + payload.len()) =~= payload);
    assert(s[h + payload.len() + 3] == le_bytes(checksum16(covered))[0]);
    assert(s[h + payload.len() + 4] == le_bytes(checksum16(covered))[1]);
}

/// A UT181A frame behind bytes that hold no header is found whole.
pub proof fn lemma_abcd_2byte_le16_roundtrip(garbage: Seq<u8>, payload: Seq<u8>)
    requires
        no_header(garbage),
        payload.len() <= 65533,
    ensures
        abcd_2byte_le16_outcome(garbage + abcd_2byte_le16_frame(payload)) == (
        FrameOutcome::Frame { payload, consumed: (garbage.len() + payload.len() + 6) as int }),
{
    let f = abcd_2byte_le16_frame(payload);
    let s = garbage + f;
    let h = garbage.len() as int;
    let len_field = le_bytes((payload.len() + 2) as u16);
    let covered = len_field + payload;
    lemma_first_header_after_garbage(garbage, f);
    lemma_be_le_bytes(checksum16(covered));
    lemma_be_le_bytes((payload.len() + 2) as u16);
    assert(s[h + 2] == len_field[0]);
    assert(s[h + 3] == len_field[1]);
    assert(s.subrange(h + 2, h + payload.len() + 4) =~= covered);
    assert(s.subrange(h + 4, h + 4 + payload.len()) =~= payload);
    assert(s[h + payload.len() + 4] == le_bytes(checksum16(covered))[0]);
    assert(s[h + payload.len() + 5] == le_bytes(checksum16(covered))[1]);
}

/// Once a UT61E+ buffer holds a whole frame (valid or not), bytes that
/// arrive after it do not change what is extracted.
pub proof fn lemma_abcd_be16_extend(s: Seq<u8>, t: Seq<u8>)
    requires
        !(abcd_be16_outcome(s) is Incomplete),
    ensures
        abcd_be16_outcome(s + t) == abcd_be16_outcome(s),
{
    lemma_first_header_extend(s, t);
    lemma_first_header(s);
    let h = first_header(s)->0;
    let u = s + t;
    let n = 3 + s[h + 2] as int;
    assert(u.subrange(h, h + n - 2) =~= s.subrange(h, h + n - 2));
    assert(u.subrange(h + 3, h + n - 2) =~= s.subrange(h + 3, h + n - 2));
}

/// Once a UT8803 buffer holds a whole measurement frame (valid or not),
/// bytes that arrive after it do not change what is extracted.
pub proof fn lemma_ut8803_extend(s: Seq<u8>, t: Seq<u8>)
    requires
        !(ut8803_outcome(s) is Incomplete),
    ensures
        ut8803_outcome(s + t) == ut8803_outcome(s),
{
    lemma_first_header_extend(s, t);
    lemma_first_header(s);
    let h = first_header(s)->0;
    let u = s + t;
    assert(u.subrange(h, h + 19) =~= s.subrange(h, h + 19));
    assert(u.subrange(h + 2, h + 19) =~= s.subrange(h + 2, h + 19));
}

/// Once a UT171 buffer holds a whole frame (valid or not), bytes that
/// arrive after it do not change what is extracted.
pub proof fn lemma_abcd_1byte_le16_extend(s: Seq<u8>, t: Seq<u8>)
    requires
        !(abcd_1byte_le16_outcome(s) is Incomplete),
    ensures
        abcd_1byte_le16_outcome(s + t) == abcd_1byte_le16_outcome(s),
{
    lemma_first_header_extend(s, t);
    lemma_first_header(s);
    let h = first_header(s)->0;
    let u = s + t;
    let n = s[h + 2] as int + 5;
    assert(u.subrange(h + 2, h + n - 2) =~= s.subrange(h + 2, h + n - 2));
    assert(u.subrange(h + 3, h + n - 2) =~= s.subrange(h + 3, h + n - 2));
}

/// Once a UT181A buffer holds a whole frame (valid or not), bytes that
/// arrive after it do not change what is extracted.
pub proof fn lemma_abcd_2byte_le16_extend(s: Seq<u8>, t: Seq<u8>)
    requires
        !(abcd_2byte_le16_outcome(s) is Incomplete),
    ensures
        abcd_2byte_le16_outcome(s + t) == abcd_2byte_le16_outcome(s),
{
    lemma_first_header_extend(s, t);
    lemma_first_header(s);
    let h = first_header(s)->0;
    let u = s + t;
    let n = le16(s[h + 2], s[h + 3]) + 4;
    assert(u.subrange(h + 2, h + n - 2) =~= s.subrange(h + 2, h + n - 2));
    assert(u.subrange(h + 4, h + n - 2) =~= s.subrange(h + 4, h + n - 2));
}

/// A found frame lies inside the buffer: what is drained does not exceed
/// the buffer, and the payload is the run of bytes that ends just before
/// the two checksum bytes at the end of the drained part.
pub open spec fn frame_within(s: Seq<u8>, o: FrameOutcome) -> bool {
    match o {
        FrameOutcome::Frame { payload, consumed } => {
            &&& payload.len() + 4 <= consumed <= s.len()
            &&& s.subrange(consumed - 2 - payload.len(), consumed - 2) == payload
        },
        _ => true,
    }
}

/// Every frame that an extractor of this module finds lies inside the buffer.
pub proof fn lemma_frames_within_buffer(s: Seq<u8>)
    ensures
        frame_within(s, abcd_be16_outcome(s)),
        frame_within(s, ut8803_outcome(s)),
        frame_within(s, abcd_1byte_le16_outcome(s)),
        frame_within(s, abcd_2byte_le16_outcome(s)),
{
    lemma_first_header(s);
}

/// The UT61E+ checksum decides between a payload and a mismatch: once the
/// first frame is whole, a stored big-endian value that differs from the
/// 16-bit sum of the bytes before it in any bit gives a mismatch carrying
/// both values, and only a stored value equal to that sum gives the payload.
pub proof fn lemma_abcd_be16_checksum_decides(s: Seq<u8>, h: int)
    requires
        first_header(s) == Some(h),
        s.len() - h >= 5,
        s[h + 2] >= 2,
        s.len() - h >= 3 + s[h + 2],
    ensures
        ({
            let n = 3 + s[h + 2] as int;
            let stored = s[h + n - 2] as int * 256 + s[h + n - 1] as int;
            let sum = byte_sum(s.subrange(h, h + n - 2)) as int % 65536;
            &&& stored != sum ==> abcd_be16_outcome(s) == (FrameOutcome::Mismatch {
                expected: stored as u16,
                actual: sum as u16,
            })
            &&& stored == sum ==> abcd_be16_outcome(s) == (FrameOutcome::Frame {
                payload: s.subrange(h + 3, h + n - 2),
                consumed: h + n,
            })
        }),
{
}

/// The UT8803 checksum decides between a payload and a mismatch (see
/// [`lemma_abcd_be16_checksum_decides`]): the stored big-endian value of
/// bytes 19-20 against the 16-bit sum of bytes 0..19.
pub proof fn lemma_ut8803_checksum_decides(s: Seq<u8>, h: int)
    requires
        first_header(s) == Some(h),
        s.len() - h >= 21,
        s[h + 3] == 0x02u8,
    ensures
        ({
            let stored = s[h + 19] as int * 256 + s[h + 20] as int;
            let sum = byte_sum(s.subrange(h, h + 19)) as int % 65536;
            &&& stored != sum ==> ut8803_outcome(s) == (FrameOutcome::Mismatch {
                expected: stored as u16,
                actual: sum as u16,
            })
            &&& stored == sum ==> ut8803_outcome(s) == (FrameOutcome::Frame {
                payload: s.subrange(h + 2, h + 19),
                consumed: h + 21,
            })
        }),
{
}

/// The UT171 checksum decides between a payload and a mismatch: the stored
/// little-endian value against the 16-bit sum of the length byte and the
/// payload.
pub proof fn lemma_abcd_1byte_le16_checksum_decides(s: Seq<u8>, h: int)
    requires
        first_header(s) == Some(h),
        s.len() - h >= 5,
        s.len() - h >= s[h + 2] + 5,
    ensures
        ({
            let n = s[h + 2] as int + 5;
            let stored = s[h + n - 1] as int * 256 + s[h + n - 2] as int;
            let sum = byte_sum(s.subrange(h + 2, h + n - 2)) as int % 65536;
            &&& stored != sum ==> abcd_1byte_le16_outcome(s) == (FrameOutcome::Mismatch {
                expected: stored as u16,
                actual: sum as u16,
            })
            &&& stored == sum ==> abcd_1byte_le16_outcome(s) == (FrameOutcome::Frame {
                payload: s.subrange(h + 3, h + n - 2),
                consumed: h + n,
            })
        }),
{
}

/// The UT181A checksum decides between a payload and a mismatch: the stored
/// little-endian value against the 16-bit sum of the length field and the
/// payload.
pub proof fn lemma_abcd_2byte_le16_checksum_decides(s: Seq<u8>, h: int)
    requires
        first_header(s) == Some(h),
        s.len() - h >= 6,
        s[h + 3] as int * 256 + s[h + 2] as int >= 2,
        s.len() - h >= s[h + 3] as int * 256 + s[h + 2] as int + 4,
    ensures
        ({
            let n = s[h + 3] as int * 256 + s[h + 2] as int + 4;
            let stored = s[h + n - 1] as int * 256 + s[h + n - 2] as int;
            let sum = byte_sum(s.subrange(h + 2, h + n - 2)) as int % 65536;
            &&& stored != sum ==> abcd_2byte_le16_outcome(s) == (FrameOutcome::Mismatch {
                expected: stored as u16,
                actual: sum as u16,
            })
            &&& stored == sum ==> abcd_2byte_le16_outcome(s) == (FrameOutcome::Frame {
                payload: s.subrange(h + 4, h + n - 2),
                consumed: h + n,
            })
        }),
{
}

// ---------------------------------------------------------------------
// Executable helpers
// ---------------------------------------------------------------------

/// Find the first `AB CD` header in `buf`.
pub fn find_header(buf: &[u8]) -> (r: Option<usize>)
    ensures
        r matches Some(i) ==> first_header(buf@) == Some(i as int) && header_at(buf@, i as int),
        r is None ==> first_header(buf@) is None,
{
    let len = buf.len();
    if len < 2 {
        return None;
    }
    let mut i: usize = 0;
    while i < len - 1
        invariant
            len == buf@.len(),
            2 <= len,
            i <= len - 1,
            header_from(buf@, 0) == header_from(buf@, i as int),
        decreases len - i,
    {
        if buf[i] == 0xAB && buf[i + 1] == 0xCD {
            return Some(i);
        }
        i = i + 1;
    }
    None
}

/// The 16-bit checksum of `buf[from..to]`.
pub(crate) fn sum16(buf: &[u8], from: usize, to: usize) -> (r: u16)
    requires
        from <= to <= buf@.len(),
        to - from <= 70000,
    ensures
        r == checksum16(buf@.subrange(from as int, to as int)),
{
    let mut acc: u32 = 0;
    let mut i = from;
    assert(buf@.subrange(from as int, from as int) =~= Seq::<u8>::empty());
    while i < to
        invariant
            from <= i <= to <= buf@.len(),
            to - from <= 70000,
            acc == byte_sum(buf@.subrange(from as int, i as int)),
            acc <= 255 * (i - from),
        decreases to - i,
    {
        proof {
            lemma_byte_sum_step(buf@, from as int, i as int);
        }
        acc = acc + buf[i] as u32;
        i = i + 1;
    }
    (acc % 65536) as u16
}

/// Copy `buf[from..to]` into a new vector.
pub(crate) fn copy_range(buf: &[u8], from: usize, to: usize) -> (r: Vec<u8>)
    requires
        from <= to <= buf@.len(),
    ensures
        r@ == buf@.subrange(from as int, to as int),
{
    slice_to_vec(slice_subrange(buf, from, to))
}

// ---------------------------------------------------------------------
// Extractors
// ---------------------------------------------------------------------

/// Extract a frame using UT61E+ format: `AB CD len payload checksum_BE`.
///
/// Length byte counts everything after itself (payload + 2-byte checksum).
/// Checksum is the 16-bit big-endian sum of all bytes before the checksum.
///
/// Returns `Ok(Some((payload, consumed)))` if a valid frame is found,
/// `Ok(None)` if incomplete, `Err` on checksum mismatch.
pub fn extract_frame_abcd_be16(buf: &[u8]) -> (r: Result<Option<(Vec<u8>, usize)>>)
    ensures
        result_is(r, abcd_be16_outcome(buf@)),
{
    let start = match find_header(buf) {
        None => return Ok(None),
        Some(start) => start,
    };
    let rem = buf.len() - start;
    if rem < 5 {
        return Ok(None);
    }
    let len_byte = buf[start + 2] as usize;
    if len_byte < 2 {
        return Ok(None);
    }
    let frame_len = 3 + len_byte;
    let payload_len = len_byte - 2;
    if rem < frame_len {
        return Ok(None);
    }
    let end = start + frame_len;
    let computed = sum16(buf, start, end - 2);
    let received: u16 = buf[end - 2] as u16 * 256 + buf[end - 1] as u16;
    if computed != received {
        return Err(Error::ChecksumMismatch { expected: received, actual: computed });
    }
    let payload = copy_range(buf, start + 3, start + 3 + payload_len);
    Ok(Some((payload, end)))
}

/// Extract a frame using UT8803 format: `AB CD byte2 0x02 payload chk_hi chk_lo`.
///
/// Fixed 21-byte frame. Checksum is the sum of bytes 0..19, stored big-endian
/// at bytes 19-20.
///
/// Returns `Ok(Some((payload, consumed)))` where payload is bytes 2..19 (17 bytes),
/// `Ok(None)` if incomplete or if the frame is not a measurement frame.
pub fn extract_frame_ut8803(buf: &[u8]) -> (r: Result<Option<(Vec<u8>, usize)>>)
    ensures
        result_is(r, ut8803_outcome(buf@)),
{
    let start = match find_header(buf) {
        None => return Ok(None),
        Some(start) => start,
    };
    let rem = buf.len() - start;
    if rem < 21 {
        return Ok(None);
    }
    if buf[start + 3] != 0x02 {
        return Ok(None);
    }
    let computed = sum16(buf, start, start + 19);
    let received: u16 = buf[start + 19] as u16 * 256 + buf[start + 20] as u16;
    if computed != received {
        return Err(Error::ChecksumMismatch { expected: received, actual: computed });
    }
    let payload = copy_range(buf, start + 2, start + 19);
    Ok(Some((payload, start + 21)))
}

/// Extract a frame using UT171 format: `AB CD len payload chk_lo chk_hi`.
///
/// Length is a 1-byte count of payload bytes only (not including checksum).
/// Checksum is the 16-bit little-endian sum of the length byte and the
/// payload (it excludes header and checksum).
///
/// Total frame: header(2) + length(1) + payload(N) + checksum(2) = N + 5.
pub fn extract_frame_abcd_1byte_le16(buf: &[u8]) -> (r: Result<Option<(Vec<u8>, usize)>>)
    ensures
        result_is(r, abcd_1byte_le16_outcome(buf@)),
{
    let start = match find_header(buf) {
        None => return Ok(None),
        Some(start) => start,
    };
    let rem = buf.len() - start;
    if rem < 5 {
        return Ok(None);
    }
    let payload_len = buf[start + 2] as usize;
    let frame_len = payload_len + 5;
    if rem < frame_len {
        return Ok(None);
    }
    let end = start + frame_len;
    let computed = sum16(buf, start + 2, end - 2);
    let received: u16 = buf[end - 1] as u16 * 256 + buf[end - 2] as u16;
    if computed != received {
        return Err(Error::ChecksumMismatch { expected: received, actual: computed });
    }
    let payload = copy_range(buf, start + 3, start + 3 + payload_len);
    Ok(Some((payload, end)))
}

/// Extract a frame using UT181A format: `AB CD len_lo len_hi payload chk_lo chk_hi`.
///
/// Length is a 2-byte little-endian value = payload size + 2 (it includes the
/// checksum bytes). Checksum is the sum, modulo 2^16, of the length field and
/// the payload, stored little-endian.
pub fn extract_frame_abcd_2byte_le16(buf: &[u8]) -> (r: Result<Option<(Vec<u8>, usize)>>)
    ensures
        result_is(r, abcd_2byte_le16_outcome(buf@)),
{
    let start = match find_header(buf) {
        None => return Ok(None),
        Some(start) => start,
    };
    let rem = buf.len() - start;
    if rem < 6 {
        return Ok(None);
    }
    let len_val = buf[start + 3] as usize * 256 + buf[start + 2] as usize;
    if len_val < 2 {
        return Ok(None);
    }
    let payload_len = len_val - 2;
    let frame_len = payload_len + 6;
    if rem < frame_len {
        return Ok(None);
    }
    let end = start + frame_len;
    let computed = sum16(buf, start + 2, end - 2);
    let received: u16 = buf[end - 1] as u16 * 256 + buf[end - 2] as u16;
    if computed != received {
        return Err(Error::ChecksumMismatch { expected: received, actual: computed });
    }
    let payload = copy_range(buf, start + 4, start + 4 + payload_len);
    Ok(Some((payload, end)))
}

} // verus!
