//! The oscillator's state machine: silent or sounding one note.
//!
//! The oscillator is monophonic. Commands reach it between blocks of samples;
//! it applies all that are pending, in their order of arrival, and then plays
//! one thing for the whole block: silence, or the note it holds.

use vstd::prelude::*;
use crate::command::{Command, REFERENCE_NOTE};
use crate::message::{kind_of, MessageKind, RawMessage};
use crate::router::routed_all;

verus! {

/// The part of the oscillator that commands change: the note it holds and
/// whether it sounds. A note-off keeps the note, so that the pitch is still
/// defined while the oscillator is silent.
#[derive(Clone, Copy, Debug, PartialEq, Eq, Structural)]
pub struct OscillatorState {
    pub note: u8,
    pub active: bool,
}

/// What the oscillator plays for one block of samples.
#[derive(Clone, Copy, Debug, PartialEq, Eq, Structural)]
pub enum Block {
    /// Every sample of the block is zero.
    Silence,
    /// The square wave of the note with this index, for the whole block.
    Tone(u8),
}

/// The level of one sample of a square wave.
#[derive(Clone, Copy, Debug, PartialEq, Eq, Structural)]
pub enum Level {
    /// The sample is zero.
    Zero,
    /// The sample is the volume.
    High,
    /// The sample is the volume, negated.
    Low,
}

impl Block {
    /// The level of a sample of this block, given whether the phase stands
    /// in the first half of the period when the sample is written.
    pub open spec fn spec_level(self, first_half: bool) -> Level {
        match self {
            Block::Silence => Level::Zero,
            Block::Tone(_) => if first_half {
                Level::High
            } else {
                Level::Low
            },
        }
    }

    /// The level of a sample of this block: zero in silence, whatever the
    /// phase; in a tone, high while the phase stands in the first half of
    /// the period and low in the second. The phase moves on after a high or
    /// a low sample and rests after a zero.
    #[verifier::when_used_as_spec(spec_level)]
    pub fn level(self, first_half: bool) -> (level: Level)
        ensures
            level == self.spec_level(first_half),
    {
        match self {
            Block::Silence => Level::Zero,
            Block::Tone(_) => if first_half {
                Level::High
            } else {
                Level::Low
            },
        }
    }
}

impl OscillatorState {
    /// The state after one command: a note-on makes the oscillator sound the
    /// given note, a note-off silences it and leaves the note as it was.
    pub open spec fn after(self, command: Command) -> OscillatorState {
        match command {
            Command::NoteOn(note) => OscillatorState { note, active: true },
            Command::NoteOff => OscillatorState { note: self.note, active: false },
        }
    }

    /// The state after a sequence of commands, applied first to last.
    pub open spec fn after_all(self, commands: Seq<Command>) -> OscillatorState
        decreases commands.len(),
    {
        if commands.len() == 0 {
            self
        } else {
            self.after_all(commands.drop_last()).after(commands.last())
        }
    }

    /// What a block rendered in this state holds.
    pub open spec fn spec_block(self) -> Block {
        if self.active {
            Block::Tone(self.note)
        } else {
            Block::Silence
        }
    }

    /// A silent oscillator that holds the given note.
    pub fn new(note: u8) -> (state: OscillatorState)
        ensures
            state == (OscillatorState { note, active: false }),
    {
        OscillatorState { note, active: false }
    }

    /// The state in which the oscillator starts: silent, holding the
    /// reference note.
    pub fn initial() -> (state: OscillatorState)
        ensures
            state == (OscillatorState { note: REFERENCE_NOTE, active: false }),
    {
        OscillatorState::new(REFERENCE_NOTE)
    }

    /// Applies one command.
    pub fn apply(&mut self, command: Command)
        ensures
            *final(self) == old(self).after(command),
    {
        match command {
            Command::NoteOn(note) => {
                self.note = note;
                self.active = true;
            },
            Command::NoteOff => {
                self.active = false;
            },
        }
    }

    /// Applies every pending command, first to last. With none pending the
    /// state stays as it is.
    pub fn apply_all(&mut self, pending: &Vec<Command>)
        ensures
            *final(self) == old(self).after_all(pending@),
            pending@.len() == 0 ==> *final(self) == *old(self),
    {
        let mut i: usize = 0;
        while i < pending.len()
            invariant
                i <= pending.len(),
                *self == old(self).after_all(pending@.subrange(0, i as int)),
            decreases pending.len() - i,
        {
            proof {
                let upto = pending@.subrange(0, i + 1);
                assert(upto.drop_last() =~= pending@.subrange(0, i as int));
                assert(upto.last() == pending@[i as int]);
            }
            self.apply(pending[i]);
            i = i + 1;
        }
        proof {
            assert(pending@.subrange(0, pending@.len() as int) =~= pending@);
        }
    }

    /// What a block rendered now holds: one answer for the whole block.
    #[verifier::when_used_as_spec(spec_block)]
    pub fn block(self) -> (block: Block)
        ensures
            block == self.spec_block(),
    {
        if self.active {
            Block::Tone(self.note)
        } else {
            Block::Silence
        }
    }

    /// Starts a block: applies the pending commands in their order, then
    /// says what the block holds, from the state they left.
    pub fn begin_block(&mut self, pending: &Vec<Command>) -> (block: Block)
        ensures
            *final(self) == old(self).after_all(pending@),
            block == old(self).after_all(pending@).spec_block(),
            pending@.len() == 0 ==> *final(self) == *old(self),
    {
        self.apply_all(pending);
        self.block()
    }
}

/// Whether a sequence of commands holds a note-on.
pub open spec fn has_note_on(commands: Seq<Command>) -> bool {
    exists|i: int| 0 <= i < commands.len() && #[trigger] commands[i] is NoteOn
}

/// Commands are applied in the order of their arrival, whether they are
/// drained at once or in two parts: applying a sequence equals applying its
/// first part and then the rest.
pub proof fn lemma_apply_in_arrival_order(
    state: OscillatorState,
    first: Seq<Command>,
    second: Seq<Command>,
)
    ensures
        state.after_all(first + second) == state.after_all(first).after_all(second),
    decreases second.len(),
{
    if second.len() == 0 {
        assert(first + second =~= first);
    } else {
        lemma_apply_in_arrival_order(state, first, second.drop_last());
        assert((first + second).drop_last() =~= first + second.drop_last());
        assert((first + second).last() == second.last());
    }
}

/// The last writer wins: what a block holds after a drain that brought any
/// command is decided by the last of them, whatever came before it and
/// whatever the oscillator did until then. After a last note-on the whole
/// state is that of the note.
pub proof fn lemma_last_command_wins(
    state: OscillatorState,
    other: OscillatorState,
    commands: Seq<Command>,
)
    requires
        commands.len() > 0,
    ensures
        state.after_all(commands).spec_block() == other.after(commands.last()).spec_block(),
        commands.last() matches Command::NoteOn(note) ==> state.after_all(commands) == (
        OscillatorState { note, active: true }),
        commands.last() is NoteOff ==> !state.after_all(commands).active,
{
}

/// A silent oscillator stays silent, and keeps its note, for as long as no
/// note-on arrives.
pub proof fn lemma_silence_is_kept(state: OscillatorState, later: Seq<Command>)
    requires
        !state.active,
        !has_note_on(later),
    ensures
        state.after_all(later) == state,
    decreases later.len(),
{
    if later.len() > 0 {
        let before = later.drop_last();
        assert(!has_note_on(before)) by {
            if has_note_on(before) {
                let i = choose|i: int| 0 <= i < before.len() && #[trigger] before[i] is NoteOn;
                assert(later[i] is NoteOn);
            }
        }
        lemma_silence_is_kept(state, before);
        assert(!(later[later.len() - 1] is NoteOn));
    }
}

/// After a note-off the oscillator is silent, and it stays silent under
/// every further sequence of commands that holds no note-on: each block
/// begun in that time is silence, and each of its samples is zero wherever
/// the phase stands.
pub proof fn lemma_silent_until_note_on(state: OscillatorState, later: Seq<Command>)
    requires
        !has_note_on(later),
    ensures
        !state.after(Command::NoteOff).after_all(later).active,
        state.after(Command::NoteOff).after_all(later).spec_block() == Block::Silence,
        forall|first_half: bool|
            #[trigger] state.after(Command::NoteOff).after_all(later).spec_block().spec_level(
                first_half,
            ) == Level::Zero,
{
    lemma_silence_is_kept(state.after(Command::NoteOff), later);
}

/// From message to block: whatever the oscillator did before, a note-on
/// message makes the next block the tone of its note, a note-off message
/// makes it silence, and any other message leaves the oscillator as it was.
pub proof fn lemma_message_decides_block(state: OscillatorState, msg: RawMessage)
    ensures
        kind_of(msg.status) is NoteOn ==> state.after_all(routed_all(seq![msg])).spec_block()
            == Block::Tone(msg.data1),
        kind_of(msg.status) is NoteOff ==> state.after_all(routed_all(seq![msg])).spec_block()
            == Block::Silence,
        !(kind_of(msg.status) is NoteOn) && !(kind_of(msg.status) is NoteOff) ==> state.after_all(
            routed_all(seq![msg]),
        ) == state,
{
    let one = seq![msg];
    assert(one.drop_last() =~= Seq::<RawMessage>::empty());
    assert(one.last() == msg);
    assert(routed_all(one.drop_last()) =~= Seq::<Command>::empty());
    let commands = routed_all(one);
    match kind_of(msg.status) {
        MessageKind::NoteOn => {
            assert(commands =~= seq![Command::NoteOn(msg.data1)]);
            assert(commands.drop_last() =~= Seq::<Command>::empty());
        },
        MessageKind::NoteOff => {
            assert(commands =~= seq![Command::NoteOff]);
            assert(commands.drop_last() =~= Seq::<Command>::empty());
        },
        _ => {
            assert(commands =~= Seq::<Command>::empty());
        },
    }
}

} // verus!
