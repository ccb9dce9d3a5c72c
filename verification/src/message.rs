//! Raw control messages and the classes of status byte the synthesiser knows.

use vstd::prelude::*;

verus! {

/// High nibble of a note-on status byte.
pub const NOTE_ON: u8 = 0x90;

/// High nibble of a note-off status byte.
pub const NOTE_OFF: u8 = 0x80;

/// High nibble of a program-change status byte.
pub const PROGRAM_CHANGE: u8 = 0xC0;

/// Status byte of the timing clock.
pub const TIMING_CLOCK: u8 = 248;

/// Mask that keeps the high nibble of a status byte.
pub const HIGH_NIBBLE: u8 = 0xF0;

/// One three-byte control message as a device delivered it, with the
/// identifier of that device and the time of arrival. The last two are
/// carried along and never read by the routing rules.
#[derive(Clone, Copy, Debug, PartialEq, Eq, Structural)]
pub struct RawMessage {
    pub status: u8,
    pub data1: u8,
    pub data2: u8,
    pub device: i32,
    pub timestamp: u32,
}

/// What a status byte announces.
#[derive(Clone, Copy, Debug, PartialEq, Eq, Structural)]
pub enum MessageKind {
    /// A note starts; `data1` is the note index.
    NoteOn,
    /// A note stops.
    NoteOff,
    /// The timing clock, which arrives continuously and is dropped silently.
    TimingClock,
    /// A program change, which the synthesiser only reports.
    ProgramChange,
    /// Any other status byte.
    Other,
}

/// The class of a status byte: the timing clock is one value, the other
/// known classes are the sixteen values that share a high nibble.
pub open spec fn kind_of(status: u8) -> MessageKind {
    if status == TIMING_CLOCK {
        MessageKind::TimingClock
    } else if NOTE_ON <= status < NOTE_ON + 16 {
        MessageKind::NoteOn
    } else if NOTE_OFF <= status < NOTE_OFF + 16 {
        MessageKind::NoteOff
    } else if PROGRAM_CHANGE <= status < PROGRAM_CHANGE + 16 {
        MessageKind::ProgramChange
    } else {
        MessageKind::Other
    }
}

/// Masking a status byte with `0xF0` yields a given nibble value exactly on
/// the sixteen status bytes that start at it.
pub proof fn lemma_high_nibble_range(status: u8)
    ensures
        (status & 0xF0 == 0x90) <==> (0x90 <= status < 0xA0),
        (status & 0xF0 == 0x80) <==> (0x80 <= status < 0x90),
        (status & 0xF0 == 0xC0) <==> (0xC0 <= status < 0xD0),
{
    assert((status & 0xF0 == 0x90) <==> (0x90 <= status < 0xA0)) by (bit_vector);
    assert((status & 0xF0 == 0x80) <==> (0x80 <= status < 0x90)) by (bit_vector);
    assert((status & 0xF0 == 0xC0) <==> (0xC0 <= status < 0xD0)) by (bit_vector);
}

/// Classifies a status byte.
pub fn classify(status: u8) -> (kind: MessageKind)
    ensures
        kind == kind_of(status),
{
    proof {
        lemma_high_nibble_range(status);
    }
    let nibble: u8 = status & HIGH_NIBBLE;
    if status == TIMING_CLOCK {
        MessageKind::TimingClock
    } else if nibble == NOTE_ON {
        MessageKind::NoteOn
    } else if nibble == NOTE_OFF {
        MessageKind::NoteOff
    } else if nibble == PROGRAM_CHANGE {
        MessageKind::ProgramChange
    } else {
        MessageKind::Other
    }
}

impl RawMessage {
    /// A message of three bytes from device 0 at time 0.
    pub fn new(status: u8, data1: u8, data2: u8) -> (msg: RawMessage)
        ensures
            msg == (RawMessage { status, data1, data2, device: 0, timestamp: 0 }),
    {
        RawMessage { status, data1, data2, device: 0, timestamp: 0 }
    }

    /// The class of this message's status byte.
    pub open spec fn spec_kind(&self) -> MessageKind {
        kind_of(self.status)
    }

    /// The class of this message's status byte.
    #[verifier::when_used_as_spec(spec_kind)]
    pub fn kind(&self) -> (kind: MessageKind)
        ensures
            kind == kind_of(self.status),
    {
        classify(self.status)
    }
}

} // verus!
