//! The event source's decisions: when to read which device, when to sleep,
//! and which read results go on to the control loop.

use vstd::prelude::*;
use crate::message::RawMessage;

verus! {

/// Time between two polling rounds, in milliseconds.
pub const POLL_INTERVAL_MS: u64 = 10;

/// The most messages that one read takes from a device.
pub const BUF_LEN: usize = 1024;

/// What one read of one device gave.
#[derive(Debug, PartialEq, Eq)]
pub enum ReadOutcome {
    /// The read succeeded with these messages, which may be none.
    Events(Vec<RawMessage>),
    /// The read succeeded and the device had nothing.
    Nothing,
    /// The read failed.
    Failed,
}

/// Chooses what goes on to the control loop: the messages of a successful
/// read that brought at least one. A failed or empty read is skipped.
pub fn forward(outcome: ReadOutcome) -> (batch: Option<Vec<RawMessage>>)
    ensures
        match batch {
            Some(messages) => outcome == ReadOutcome::Events(messages) && messages@.len() > 0,
            None => !(outcome matches ReadOutcome::Events(messages) && messages@.len() > 0),
        },
{
    match outcome {
        ReadOutcome::Events(messages) => {
            if messages.len() > 0 {
                Some(messages)
            } else {
                None
            }
        },
        ReadOutcome::Nothing => None,
        ReadOutcome::Failed => None,
    }
}

/// What the event source has to do next.
#[derive(Clone, Copy, Debug, PartialEq, Eq, Structural)]
pub enum PollAction {
    /// Read the device with this position among the input devices.
    Read(usize),
    /// Sleep for this many milliseconds; a new round starts afterwards.
    Sleep(u64),
    /// Stop polling.
    Halt,
}

/// The schedule of the event source. A round reads every device once, in
/// order, and ends with a sleep. Cancellation is looked at when a round
/// starts, never in the middle of one.
#[derive(Clone, Copy, Debug, PartialEq, Eq, Structural)]
pub struct Poller {
    /// Number of input devices.
    pub devices: usize,
    /// Position of the device to read next in this round.
    pub cursor: usize,
}

impl Poller {
    /// What the poller does next, given whether cancellation was asked for.
    pub open spec fn action(self, cancelled: bool) -> PollAction {
        if self.cursor == 0 && cancelled {
            PollAction::Halt
        } else if self.cursor < self.devices {
            PollAction::Read(self.cursor)
        } else {
            PollAction::Sleep(POLL_INTERVAL_MS)
        }
    }

    /// The poller after it has done that: past the device it read, at the
    /// start of a round after a sleep, unchanged when it halts.
    pub open spec fn advanced(self, cancelled: bool) -> Poller {
        match self.action(cancelled) {
            PollAction::Halt => self,
            PollAction::Read(at) => Poller { devices: self.devices, cursor: (at + 1) as usize },
            PollAction::Sleep(_) => Poller { devices: self.devices, cursor: 0 },
        }
    }

    /// The poller after a number of steps during which nobody cancels.
    pub open spec fn run(self, steps: nat) -> Poller
        decreases steps,
    {
        if steps == 0 {
            self
        } else {
            self.run((steps - 1) as nat).advanced(false)
        }
    }

    /// A poller for this many devices, at the start of a round.
    pub fn new(devices: usize) -> (poller: Poller)
        ensures
            poller == (Poller { devices, cursor: 0 }),
    {
        Poller { devices, cursor: 0 }
    }

    /// Says what to do next and moves on.
    pub fn next(&mut self, cancelled: bool) -> (action: PollAction)
        ensures
            action == old(self).action(cancelled),
            *final(self) == old(self).advanced(cancelled),
    {
        if self.cursor == 0 && cancelled {
            PollAction::Halt
        } else if self.cursor < self.devices {
            let at: usize = self.cursor;
            self.cursor = at + 1;
            PollAction::Read(at)
        } else {
            self.cursor = 0;
            PollAction::Sleep(POLL_INTERVAL_MS)
        }
    }
}

/// A round of polling reads every device once, in the order of the devices,
/// then sleeps for the polling interval whether or not any device had data,
/// and leaves the poller at the start of the next round.
pub proof fn lemma_round_reads_each_device_once(devices: usize, step: nat)
    requires
        step <= devices,
    ensures
        (Poller { devices, cursor: 0 }).run(step).cursor == step,
        (Poller { devices, cursor: 0 }).run(step).devices == devices,
        step < devices ==> (Poller { devices, cursor: 0 }).run(step).action(false)
            == PollAction::Read(step as usize),
        step == devices ==> (Poller { devices, cursor: 0 }).run(step).action(false)
            == PollAction::Sleep(POLL_INTERVAL_MS),
        step == devices ==> (Poller { devices, cursor: 0 }).run(step + 1) == (Poller {
            devices,
            cursor: 0,
        }),
    decreases step,
{
    let start = Poller { devices, cursor: 0 };
    if step > 0 {
        lemma_round_reads_each_device_once(devices, (step - 1) as nat);
    }
    if step == devices {
        assert(start.run(step + 1) == start.run(step).advanced(false));
    }
}

} // verus!
