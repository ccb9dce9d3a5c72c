//! Instructions for the oscillator.

use vstd::prelude::*;

verus! {

/// The note index that sounds at 220 Hz, the reference of the tuning: the
/// pitch doubles every twelve notes above it.
pub const REFERENCE_NOTE: u8 = 57;

/// An instruction for the oscillator. A note-on names the note to sound by
/// its index; the pitch in Hz follows from the index alone and is worked out
/// where samples are produced.
#[derive(Clone, Copy, Debug, PartialEq, Eq, Structural)]
pub enum Command {
    /// Sound the note with this index.
    NoteOn(u8),
    /// Fall silent.
    NoteOff,
}

} // verus!
