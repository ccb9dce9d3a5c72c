//! The control loop's decisions: what to do on each event it waits for.
//!
//! The loop itself waits, sends and logs outside this crate. Here is the
//! rule it follows: given where the loop stands and what happened, where it
//! stands next and what it has to do.

use vstd::prelude::*;
use crate::command::Command;
use crate::message::RawMessage;
use crate::router::{route_batch, routed_all};

verus! {

/// A notification from outside that asks the program to end.
#[derive(Clone, Copy, Debug, PartialEq, Eq, Structural)]
pub enum Notification {
    /// An interrupt request: the loop ends.
    Interrupt,
    /// A termination request: noted, and the loop goes on.
    Terminate,
    /// Anything else that the notification source delivers.
    Other,
}

/// Why the loop ended.
#[derive(Clone, Copy, Debug, PartialEq, Eq, Structural)]
pub enum StopReason {
    /// An interrupt request arrived.
    Interrupted,
    /// The oscillator's end of the command channel is gone.
    ChannelClosed,
}

/// Where the control loop stands.
#[derive(Clone, Copy, Debug, PartialEq, Eq, Structural)]
pub enum LoopState {
    Running,
    Stopped(StopReason),
}

/// What the control loop can be woken by.
#[derive(Debug, PartialEq, Eq)]
pub enum LoopEvent {
    /// The event source handed over a batch of messages.
    Batch(Vec<RawMessage>),
    /// A notification arrived.
    Notified(Notification),
    /// A command could not be sent: the receiving end is gone.
    SendFailed,
}

/// What the control loop has to do next.
#[derive(Debug, PartialEq, Eq)]
pub enum LoopAction {
    /// Send these commands to the oscillator, in this order, then wait.
    Deliver(Vec<Command>),
    /// Wait for the next event.
    Wait,
    /// Leave the loop and shut down.
    Exit,
}

/// A `LoopAction` with its commands as a sequence.
pub enum LoopActionView {
    Deliver(Seq<Command>),
    Wait,
    Exit,
}

impl View for LoopAction {
    type V = LoopActionView;

    open spec fn view(&self) -> LoopActionView {
        match self {
            LoopAction::Deliver(commands) => LoopActionView::Deliver(commands@),
            LoopAction::Wait => LoopActionView::Wait,
            LoopAction::Exit => LoopActionView::Exit,
        }
    }
}

/// Where the loop stands after an event. A stopped loop stays stopped for
/// the reason it first stopped; a running one stops on an interrupt request
/// or when a send fails, and on nothing else.
pub open spec fn next_state(state: LoopState, event: LoopEvent) -> LoopState {
    match state {
        LoopState::Stopped(reason) => LoopState::Stopped(reason),
        LoopState::Running => match event {
            LoopEvent::Batch(_) => LoopState::Running,
            LoopEvent::Notified(Notification::Interrupt) => LoopState::Stopped(
                StopReason::Interrupted,
            ),
            LoopEvent::Notified(_) => LoopState::Running,
            LoopEvent::SendFailed => LoopState::Stopped(StopReason::ChannelClosed),
        },
    }
}

/// What the loop does on an event: it leaves when it is or becomes stopped,
/// delivers the commands of a batch, and otherwise waits.
pub open spec fn next_action(state: LoopState, event: LoopEvent) -> LoopActionView {
    if next_state(state, event) is Stopped {
        LoopActionView::Exit
    } else {
        match event {
            LoopEvent::Batch(batch) => LoopActionView::Deliver(routed_all(batch@)),
            _ => LoopActionView::Wait,
        }
    }
}

/// One turn of the control loop.
pub fn step(state: LoopState, event: &LoopEvent) -> (turn: (LoopState, LoopAction))
    ensures
        turn.0 == next_state(state, *event),
        turn.1@ == next_action(state, *event),
{
    match state {
        LoopState::Stopped(reason) => (LoopState::Stopped(reason), LoopAction::Exit),
        LoopState::Running => match event {
            LoopEvent::Batch(batch) => (LoopState::Running, LoopAction::Deliver(route_batch(batch))),
            LoopEvent::Notified(Notification::Interrupt) => (
                LoopState::Stopped(StopReason::Interrupted),
                LoopAction::Exit,
            ),
            LoopEvent::Notified(_) => (LoopState::Running, LoopAction::Wait),
            LoopEvent::SendFailed => (LoopState::Stopped(StopReason::ChannelClosed), LoopAction::Exit),
        },
    }
}

/// Where the loop stands after a sequence of events, first to last.
pub open spec fn state_after(state: LoopState, events: Seq<LoopEvent>) -> LoopState
    decreases events.len(),
{
    if events.len() == 0 {
        state
    } else {
        next_state(state_after(state, events.drop_last()), events.last())
    }
}

/// Stopping is final: whatever events follow, a stopped loop stays stopped
/// for the same reason, and every one of its turns says to leave.
pub proof fn lemma_stopped_stays_stopped(reason: StopReason, events: Seq<LoopEvent>)
    ensures
        state_after(LoopState::Stopped(reason), events) == LoopState::Stopped(reason),
        forall|event: LoopEvent| #[trigger]
            next_action(LoopState::Stopped(reason), event) == LoopActionView::Exit,
    decreases events.len(),
{
    if events.len() > 0 {
        lemma_stopped_stays_stopped(reason, events.drop_last());
    }
}

/// A running loop ends on exactly two events, an interrupt request and a
/// failed send. A termination request does not end it.
pub proof fn lemma_what_stops_the_loop(event: LoopEvent)
    ensures
        next_state(LoopState::Running, event) is Stopped <==> (event == LoopEvent::Notified(
            Notification::Interrupt,
        ) || event == LoopEvent::SendFailed),
        next_state(LoopState::Running, LoopEvent::Notified(Notification::Terminate))
            == LoopState::Running,
{
}

} // verus!
