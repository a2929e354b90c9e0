use vstd::prelude::*;

use crate::protocol::framing::{
    abcd_be16_frame, abcd_be16_outcome, byte_sum, lemma_abcd_be16_roundtrip, no_header,
    FrameOutcome,
};

verus! {

/// Remote commands (button presses) that can be sent to the meter.
///
/// Encoding: `[0xAB, 0xCD, 0x03, cmd, (cmd+379)>>8, (cmd+379)&0xFF]`,
/// where `cmd` is the command byte given by [`Command::code`].
#[derive(Debug, Clone, Copy, PartialEq, Eq)]
pub enum Command {
    /// Request a measurement reading (byte 0x5E).
    GetMeasurement,
    /// Toggle HOLD mode (byte 0x48).
    Hold,
    /// Toggle MIN/MAX mode (byte 0x4D).
    MinMax,
    /// Toggle REL (relative) mode (byte 0x52).
    Rel,
    /// Toggle range (auto/manual) (byte 0x41).
    Range,
    /// Press SELECT button (byte 0x53).
    Select,
    /// Toggle backlight (byte 0x4C).
    Light,
}

impl Command {
    /// The command byte that the meter expects for this button.
    pub open spec fn byte_of(self) -> u8 {
        match self {
            Command::GetMeasurement => 0x5E,
            Command::Hold => 0x48,
            Command::MinMax => 0x4D,
            Command::Rel => 0x52,
            Command::Range => 0x41,
            Command::Select => 0x53,
            Command::Light => 0x4C,
        }
    }

    /// The six bytes sent on the wire for this command.
    pub open spec fn wire_bytes(self) -> Seq<u8> {
        let c = self.byte_of();
        let check = c + 379;
        seq![0xABu8, 0xCDu8, 0x03u8, c, (check / 256) as u8, (check % 256) as u8]
    }

    /// The command byte of this button.
    pub fn code(self) -> (c: u8)
        ensures
            c == self.byte_of(),
    {
        match self {
            Command::GetMeasurement => 0x5E,
            Command::Hold => 0x48,
            Command::MinMax => 0x4D,
            Command::Rel => 0x52,
            Command::Range => 0x41,
            Command::Select => 0x53,
            Command::Light => 0x4C,
        }
    }

    /// Encode this command into the 6-byte wire format.
    pub fn encode(self) -> (out: [u8; 6])
        ensures
            out@ == self.wire_bytes(),
    {
        let cmd = self.code();
        let check: u16 = cmd as u16 + 379;
        let out = [0xABu8, 0xCDu8, 0x03u8, cmd, (check >> 8) as u8, (check & 0xFF) as u8];
        assert((check >> 8) as u8 == (check / 256) as u8 && (check & 0xFF) as u8 == (check % 256) as u8)
            by (bit_vector);
        assert(out@ =~= self.wire_bytes());
        out
    }
}

/// The bytes of an encoded command form a UT61E+ frame whose one-byte
/// payload is the command byte: the command checksum `cmd + 379` is the
/// frame checksum of `AB CD 03 cmd`.
pub proof fn lemma_encode_is_frame(cmd: Command)
    ensures
        cmd.wire_bytes() == abcd_be16_frame(seq![cmd.byte_of()]),
        abcd_be16_outcome(cmd.wire_bytes()) == (FrameOutcome::Frame {
            payload: seq![cmd.byte_of()],
            consumed: 6,
        }),
{
    let c = cmd.byte_of();
    let body = seq![0xABu8, 0xCDu8, 3u8] + seq![c];
    assert(body =~= seq![0xABu8, 0xCDu8, 3u8, c]);
    reveal_with_fuel(byte_sum, 5);
    assert(body.drop_last() =~= seq![0xABu8, 0xCDu8, 3u8]);
    assert(body.drop_last().drop_last() =~= seq![0xABu8, 0xCDu8]);
    assert(body.drop_last().drop_last().drop_last() =~= seq![0xABu8]);
    assert(body.drop_last().drop_last().drop_last().drop_last() =~= Seq::<u8>::empty());
    assert(byte_sum(body) == c + 379);
    assert(cmd.wire_bytes() =~= abcd_be16_frame(seq![c]));
    let empty = Seq::<u8>::empty();
    assert(no_header(empty));
    lemma_abcd_be16_roundtrip(empty, seq![c]);
    assert(empty + abcd_be16_frame(seq![c]) =~= abcd_be16_frame(seq![c]));
}

} // verus!
