use rusty_synth::message::RawMessage;
use rusty_synth::source::{forward, PollAction, Poller, ReadOutcome, BUF_LEN, POLL_INTERVAL_MS};

#[test]
fn polling_parameters() {
    assert_eq!(POLL_INTERVAL_MS, 10);
    assert_eq!(BUF_LEN, 1024);
}

#[test]
fn batch_with_messages_goes_on() {
    let messages = vec![RawMessage::new(0x90, 69, 127), RawMessage::new(248, 0, 0)];
    assert_eq!(forward(ReadOutcome::Events(messages.clone())), Some(messages));
}

#[test]
fn empty_and_failed_reads_are_skipped() {
    assert_eq!(forward(ReadOutcome::Events(Vec::new())), None);
    assert_eq!(forward(ReadOutcome::Nothing), None);
    assert_eq!(forward(ReadOutcome::Failed), None);
}

#[test]
fn round_reads_every_device_then_sleeps() {
    let mut poller = Poller::new(3);
    for _ in 0..4 {
        assert_eq!(poller.next(false), PollAction::Read(0));
        assert_eq!(poller.next(false), PollAction::Read(1));
        assert_eq!(poller.next(false), PollAction::Read(2));
        assert_eq!(poller.next(false), PollAction::Sleep(10));
        assert_eq!(poller, Poller::new(3));
    }
}

#[test]
fn poller_without_devices_only_sleeps() {
    let mut poller = Poller::new(0);
    for _ in 0..3 {
        assert_eq!(poller.next(false), PollAction::Sleep(10));
        assert_eq!(poller, Poller { devices: 0, cursor: 0 });
    }
}

#[test]
fn cancellation_is_seen_at_the_start_of_a_round() {
    let mut poller = Poller::new(2);
    assert_eq!(poller.next(true), PollAction::Halt);
    assert_eq!(poller, Poller::new(2));
    assert_eq!(poller.next(false), PollAction::Read(0));
    assert_eq!(poller.next(true), PollAction::Read(1));
    assert_eq!(poller.next(true), PollAction::Sleep(10));
    assert_eq!(poller.next(true), PollAction::Halt);
    assert_eq!(poller.next(true), PollAction::Halt);
}

#[test]
fn cursor_past_the_devices_ends_the_round() {
    let mut poller = Poller { devices: 2, cursor: 5 };
    assert_eq!(poller.next(false), PollAction::Sleep(10));
    assert_eq!(poller, Poller::new(2));
}
