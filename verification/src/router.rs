//! The event router: from raw control messages to oscillator commands.

use vstd::prelude::*;
use crate::command::Command;
use crate::message::{kind_of, MessageKind, RawMessage};

verus! {

/// What the router hands to the log for a message that yields no command.
#[derive(Clone, Copy, Debug, PartialEq, Eq, Structural)]
pub enum Report {
    /// A program change arrived; it does not affect synthesis.
    ProgramChange(RawMessage),
    /// A message with a status byte the router does not know.
    Unrecognized(RawMessage),
}

/// The command that a message stands for, if any.
pub open spec fn routed(msg: RawMessage) -> Option<Command> {
    match kind_of(msg.status) {
        MessageKind::NoteOn => Some(Command::NoteOn(msg.data1)),
        MessageKind::NoteOff => Some(Command::NoteOff),
        _ => None,
    }
}

/// What is reported of a message, if anything.
pub open spec fn reported(msg: RawMessage) -> Option<Report> {
    match kind_of(msg.status) {
        MessageKind::ProgramChange => Some(Report::ProgramChange(msg)),
        MessageKind::Other => Some(Report::Unrecognized(msg)),
        _ => None,
    }
}

/// The commands that a sequence of messages stands for, in the order of the
/// messages.
pub open spec fn routed_all(msgs: Seq<RawMessage>) -> Seq<Command>
    decreases msgs.len(),
{
    if msgs.len() == 0 {
        Seq::empty()
    } else {
        let before = routed_all(msgs.drop_last());
        match routed(msgs.last()) {
            Some(command) => before.push(command),
            None => before,
        }
    }
}

/// Routes one message: to one command, or to none.
pub fn route(msg: &RawMessage) -> (out: Option<Command>)
    ensures
        out == routed(*msg),
{
    match msg.kind() {
        MessageKind::NoteOn => Some(Command::NoteOn(msg.data1)),
        MessageKind::NoteOff => Some(Command::NoteOff),
        MessageKind::TimingClock => None,
        MessageKind::ProgramChange => None,
        MessageKind::Other => None,
    }
}

/// Says what the log is to hear of a message: nothing of a note message or
/// of the timing clock, the message itself otherwise.
pub fn report(msg: &RawMessage) -> (out: Option<Report>)
    ensures
        out == reported(*msg),
{
    match msg.kind() {
        MessageKind::ProgramChange => Some(Report::ProgramChange(*msg)),
        MessageKind::Other => Some(Report::Unrecognized(*msg)),
        MessageKind::NoteOn => None,
        MessageKind::NoteOff => None,
        MessageKind::TimingClock => None,
    }
}

/// Routes a batch of messages: its commands, in the order of the messages.
pub fn route_batch(batch: &Vec<RawMessage>) -> (commands: Vec<Command>)
    ensures
        commands@ == routed_all(batch@),
{
    let mut commands: Vec<Command> = Vec::new();
    let mut i: usize = 0;
    while i < batch.len()
        invariant
            i <= batch.len(),
            commands@ == routed_all(batch@.subrange(0, i as int)),
        decreases batch.len() - i,
    {
        proof {
            let upto = batch@.subrange(0, i + 1);
            assert(upto.drop_last() =~= batch@.subrange(0, i as int));
            assert(upto.last() == batch@[i as int]);
        }
        match route(&batch[i]) {
            Some(command) => {
                commands.push(command);
            },
            None => {},
        }
        i = i + 1;
    }
    proof {
        assert(batch@.subrange(0, batch@.len() as int) =~= batch@);
    }
    commands
}

/// The router keeps no state: a message yields the same command whenever
/// and wherever it is routed, and only its status byte and its first data
/// byte matter.
pub proof fn lemma_route_reads_status_and_note(a: RawMessage, b: RawMessage)
    requires
        a.status == b.status,
        a.data1 == b.data1,
    ensures
        routed(a) == routed(b),
{
}

/// Routing a sequence that arrives in two batches gives the commands of the
/// first batch followed by those of the second: nothing carries over from
/// one message to the next.
pub proof fn lemma_route_batches_concatenate(first: Seq<RawMessage>, second: Seq<RawMessage>)
    ensures
        routed_all(first + second) == routed_all(first) + routed_all(second),
    decreases second.len(),
{
    if second.len() == 0 {
        assert(first + second =~= first);
        assert(routed_all(first) + routed_all(second) =~= routed_all(first));
    } else {
        lemma_route_batches_concatenate(first, second.drop_last());
        assert((first + second).drop_last() =~= first + second.drop_last());
        assert((first + second).last() == second.last());
        match routed(second.last()) {
            Some(command) => {
                assert(routed_all(first + second) =~= routed_all(first) + routed_all(second));
            },
            None => {},
        }
    }
}

/// A message yields a command exactly when its status byte is a note-on or
/// a note-off; every other byte, known or not, yields none.
pub proof fn lemma_only_notes_give_commands(msg: RawMessage)
    ensures
        routed(msg) is Some <==> (0x80 <= msg.status < 0xA0),
        routed(msg) is Some ==> reported(msg) is None,
        msg.status == 248 ==> routed(msg) is None && reported(msg) is None,
{
}

} // verus!
