use rusty_synth::command::Command;
use rusty_synth::message::{classify, MessageKind, RawMessage};
use rusty_synth::router::{report, route, route_batch, Report};

#[test]
fn note_on_carries_its_note() {
    let msg = RawMessage::new(0x90, 69, 127);
    assert_eq!(route(&msg), Some(Command::NoteOn(69)));
    assert_eq!(report(&msg), None);
}

#[test]
fn note_on_is_known_by_its_high_nibble() {
    for low in 0u8..16 {
        let msg = RawMessage::new(0x90 | low, 45, 1);
        assert_eq!(route(&msg), Some(Command::NoteOn(45)));
    }
}

#[test]
fn note_off_is_known_by_its_high_nibble() {
    for low in 0u8..16 {
        let msg = RawMessage::new(0x80 | low, 69, 0);
        assert_eq!(route(&msg), Some(Command::NoteOff));
        assert_eq!(report(&msg), None);
    }
}

#[test]
fn timing_clock_is_dropped_without_a_word() {
    let msg = RawMessage::new(248, 0, 0);
    assert_eq!(classify(248), MessageKind::TimingClock);
    assert_eq!(route(&msg), None);
    assert_eq!(report(&msg), None);
}

#[test]
fn program_change_is_reported_and_gives_no_command() {
    for status in [0xC0u8, 0xC3, 0xCF] {
        let msg = RawMessage::new(status, 5, 0);
        assert_eq!(route(&msg), None);
        assert_eq!(report(&msg), Some(Report::ProgramChange(msg)));
    }
}

#[test]
fn unknown_status_gives_no_command() {
    let msg = RawMessage::new(0xA0, 69, 64);
    assert_eq!(route(&msg), None);
    assert_eq!(report(&msg), Some(Report::Unrecognized(msg)));
}

#[test]
fn only_note_bytes_give_commands() {
    for status in 0u8..=255 {
        for data1 in [0u8, 57, 127, 255] {
            let msg = RawMessage::new(status, data1, 99);
            let expected = if (0x90..0xA0).contains(&status) {
                Some(Command::NoteOn(data1))
            } else if (0x80..0x90).contains(&status) {
                Some(Command::NoteOff)
            } else {
                None
            };
            assert_eq!(route(&msg), expected);
            if expected.is_some() || status == 248 {
                assert_eq!(report(&msg), None);
            } else {
                assert!(report(&msg).is_some());
            }
        }
    }
}

#[test]
fn classify_names_each_class() {
    assert_eq!(classify(0x90), MessageKind::NoteOn);
    assert_eq!(classify(0x9F), MessageKind::NoteOn);
    assert_eq!(classify(0x80), MessageKind::NoteOff);
    assert_eq!(classify(0x8F), MessageKind::NoteOff);
    assert_eq!(classify(0xC0), MessageKind::ProgramChange);
    assert_eq!(classify(0xCF), MessageKind::ProgramChange);
    assert_eq!(classify(0xF8), MessageKind::TimingClock);
    assert_eq!(classify(0xF0), MessageKind::Other);
    assert_eq!(classify(0xF9), MessageKind::Other);
    assert_eq!(classify(0x7F), MessageKind::Other);
    assert_eq!(classify(0xA0), MessageKind::Other);
    assert_eq!(classify(0xB0), MessageKind::Other);
    assert_eq!(classify(0xD0), MessageKind::Other);
    assert_eq!(classify(0x00), MessageKind::Other);
}

#[test]
fn kind_of_a_message_is_that_of_its_status() {
    let msg = RawMessage { status: 0x91, data1: 1, data2: 2, device: 7, timestamp: 1234 };
    assert_eq!(msg.kind(), MessageKind::NoteOn);
    assert_eq!(RawMessage::new(0x91, 1, 2), RawMessage { device: 0, timestamp: 0, ..msg });
}

#[test]
fn routing_reads_neither_device_nor_time_nor_velocity() {
    let a = RawMessage { status: 0x90, data1: 60, data2: 1, device: 0, timestamp: 0 };
    let b = RawMessage { status: 0x90, data1: 60, data2: 127, device: 3, timestamp: 99_000 };
    assert_eq!(route(&a), route(&b));
    assert_eq!(route(&a), route(&a));
}

#[test]
fn batch_gives_its_commands_in_order() {
    let batch = vec![
        RawMessage::new(248, 0, 0),
        RawMessage::new(0x90, 60, 100),
        RawMessage::new(0xA0, 60, 100),
        RawMessage::new(0x80, 60, 0),
        RawMessage::new(0xC0, 2, 0),
        RawMessage::new(0x91, 64, 100),
    ];
    assert_eq!(
        route_batch(&batch),
        vec![Command::NoteOn(60), Command::NoteOff, Command::NoteOn(64)]
    );
}

#[test]
fn empty_batch_gives_no_command() {
    assert_eq!(route_batch(&Vec::new()), Vec::new());
    assert_eq!(route_batch(&vec![RawMessage::new(248, 0, 0)]), Vec::new());
}

#[test]
fn batches_route_as_their_concatenation() {
    let first = vec![RawMessage::new(0x90, 57, 1), RawMessage::new(0xF8, 0, 0)];
    let second = vec![RawMessage::new(0x80, 57, 0), RawMessage::new(0x90, 69, 1)];
    let mut joined = first.clone();
    joined.extend(second.iter().copied());
    let mut parts = route_batch(&first);
    parts.extend(route_batch(&second));
    assert_eq!(route_batch(&joined), parts);
    assert_eq!(parts, vec![Command::NoteOn(57), Command::NoteOff, Command::NoteOn(69)]);
}
