use tracker_shell::playback::{
    reference_phrase, simulate, ChannelMessage, NoteEvent, PlaybackAction, PlaybackFailure,
    PlaybackSequencer, NOTE_OFF_MSG, NOTE_ON_MSG, UNITS_PER_BEAT, VELOCITY,
};

/// A sink that records what it is sent and fails at one write, if told to.
struct MockSink {
    present: bool,
    fail_at_write: Option<usize>,
    attempts: usize,
    taken: Vec<[u8; 3]>,
    elapsed: u128,
}

impl MockSink {
    fn new(present: bool, fail_at_write: Option<usize>) -> MockSink {
        MockSink { present, fail_at_write, attempts: 0, taken: Vec::new(), elapsed: 0 }
    }

    fn play(&mut self, phrase: Vec<NoteEvent>) -> Result<(), PlaybackFailure> {
        let mut sequencer = PlaybackSequencer::new(phrase).unwrap();
        loop {
            match sequencer.pending() {
                PlaybackAction::Acquire => sequencer.advance(self.present),
                PlaybackAction::Write(message) => {
                    let position = self.attempts;
                    self.attempts += 1;
                    if self.fail_at_write == Some(position) {
                        sequencer.advance(false);
                    } else {
                        self.taken.push(message.bytes());
                        sequencer.advance(true);
                    }
                }
                PlaybackAction::Wait(units) => {
                    self.elapsed += units as u128;
                    sequencer.advance(true);
                }
                PlaybackAction::Finished => {
                    assert_eq!(sequencer.outcome(), Some(Ok(())));
                    return Ok(());
                }
                PlaybackAction::Aborted(failure) => {
                    assert_eq!(sequencer.outcome(), Some(Err(failure)));
                    return Err(failure);
                }
            }
        }
    }
}

fn note(pitch: u8, duration: u64) -> NoteEvent {
    NoteEvent::new(pitch, duration).unwrap()
}

#[test]
fn constants_are_those_of_the_wire() {
    assert_eq!(NOTE_ON_MSG, 0x90);
    assert_eq!(NOTE_OFF_MSG, 0x80);
    assert_eq!(VELOCITY, 0x64);
    assert_eq!(UNITS_PER_BEAT, 150);
}

#[test]
fn reference_phrase_has_five_notes() {
    let phrase = reference_phrase();
    assert_eq!(
        phrase,
        vec![
            NoteEvent { pitch: 74, duration: 1 },
            NoteEvent { pitch: 74, duration: 1 },
            NoteEvent { pitch: 86, duration: 1 },
            NoteEvent { pitch: 0, duration: 1 },
            NoteEvent { pitch: 81, duration: 1 },
        ]
    );
}

#[test]
fn reference_phrase_is_ten_alternating_writes() {
    let mut sink = MockSink::new(true, None);
    assert_eq!(sink.play(reference_phrase()), Ok(()));
    assert_eq!(sink.attempts, 10);
    assert_eq!(
        sink.taken,
        vec![
            [0x90, 74, 0x64],
            [0x80, 74, 0x64],
            [0x90, 74, 0x64],
            [0x80, 74, 0x64],
            [0x90, 86, 0x64],
            [0x80, 86, 0x64],
            [0x90, 0, 0x64],
            [0x80, 0, 0x64],
            [0x90, 81, 0x64],
            [0x80, 81, 0x64],
        ]
    );
    assert_eq!(sink.elapsed, 5 * 150 + 150);
}

#[test]
fn actions_come_in_order() {
    let mut sequencer = PlaybackSequencer::new(vec![note(60, 2), note(0, 3)]).unwrap();
    let expected = [
        PlaybackAction::Acquire,
        PlaybackAction::Write(ChannelMessage { status: 0x90, pitch: 60, velocity: 0x64 }),
        PlaybackAction::Wait(300),
        PlaybackAction::Write(ChannelMessage { status: 0x80, pitch: 60, velocity: 0x64 }),
        PlaybackAction::Write(ChannelMessage { status: 0x90, pitch: 0, velocity: 0x64 }),
        PlaybackAction::Wait(450),
        PlaybackAction::Write(ChannelMessage { status: 0x80, pitch: 0, velocity: 0x64 }),
        PlaybackAction::Wait(150),
    ];
    for action in expected {
        assert_eq!(sequencer.outcome(), None);
        assert_eq!(sequencer.pending(), action);
        sequencer.advance(true);
    }
    assert_eq!(sequencer.pending(), PlaybackAction::Finished);
    assert_eq!(sequencer.outcome(), Some(Ok(())));
    sequencer.advance(true);
    sequencer.advance(false);
    assert_eq!(sequencer.pending(), PlaybackAction::Finished);
}

#[test]
fn elapsed_time_is_durations_times_150_plus_settle() {
    let mut sink = MockSink::new(true, None);
    assert_eq!(sink.play(vec![note(60, 2), note(62, 3), note(64, 7)]), Ok(()));
    assert_eq!(sink.elapsed, (2 + 3 + 7) * 150 + 150);
    assert_eq!(sink.attempts, 6);
}

#[test]
fn failure_on_third_write_aborts() {
    let mut sink = MockSink::new(true, Some(2));
    assert_eq!(sink.play(reference_phrase()), Err(PlaybackFailure::DeviceWriteFailure));
    assert_eq!(sink.attempts, 3);
    assert_eq!(sink.taken, vec![[0x90, 74, 0x64], [0x80, 74, 0x64]]);
    assert_eq!(sink.elapsed, 150);
}

#[test]
fn failure_on_a_note_off_leaves_the_note_on() {
    let mut sink = MockSink::new(true, Some(3));
    assert_eq!(sink.play(reference_phrase()), Err(PlaybackFailure::DeviceWriteFailure));
    assert_eq!(sink.attempts, 4);
    assert_eq!(sink.taken, vec![[0x90, 74, 0x64], [0x80, 74, 0x64], [0x90, 74, 0x64]]);
    assert_eq!(sink.elapsed, 300);
}

#[test]
fn aborted_playback_stays_aborted() {
    let mut sequencer = PlaybackSequencer::new(reference_phrase()).unwrap();
    sequencer.advance(true);
    sequencer.advance(false);
    let aborted = PlaybackAction::Aborted(PlaybackFailure::DeviceWriteFailure);
    assert_eq!(sequencer.pending(), aborted);
    sequencer.advance(true);
    assert_eq!(sequencer.pending(), aborted);
    sequencer.advance(false);
    assert_eq!(sequencer.pending(), aborted);
    assert_eq!(sequencer.outcome(), Some(Err(PlaybackFailure::DeviceWriteFailure)));
}

#[test]
fn missing_device_writes_nothing() {
    let mut sink = MockSink::new(false, None);
    assert_eq!(sink.play(reference_phrase()), Err(PlaybackFailure::DeviceUnavailable));
    assert_eq!(sink.attempts, 0);
    assert_eq!(sink.elapsed, 0);
}

#[test]
fn a_wait_cannot_fail() {
    let mut sequencer = PlaybackSequencer::new(vec![note(60, 1)]).unwrap();
    sequencer.advance(true);
    sequencer.advance(true);
    assert_eq!(sequencer.pending(), PlaybackAction::Wait(150));
    sequencer.advance(false);
    assert_eq!(
        sequencer.pending(),
        PlaybackAction::Write(ChannelMessage { status: 0x80, pitch: 60, velocity: 0x64 })
    );
}

#[test]
fn empty_phrase_only_settles() {
    let mut sink = MockSink::new(true, None);
    assert_eq!(sink.play(Vec::new()), Ok(()));
    assert_eq!(sink.attempts, 0);
    assert_eq!(sink.elapsed, 150);
}

#[test]
fn notes_are_checked() {
    assert_eq!(NoteEvent::new(0, 1), Some(NoteEvent { pitch: 0, duration: 1 }));
    assert_eq!(NoteEvent::new(127, 1), Some(NoteEvent { pitch: 127, duration: 1 }));
    assert_eq!(NoteEvent::new(128, 1), None);
    assert_eq!(NoteEvent::new(60, 0), None);
    assert_eq!(
        NoteEvent::new(60, u64::MAX / 150),
        Some(NoteEvent { pitch: 60, duration: u64::MAX / 150 })
    );
    assert_eq!(NoteEvent::new(60, u64::MAX / 150 + 1), None);
    assert!(NoteEvent { pitch: 60, duration: 4 }.is_valid());
    assert!(!NoteEvent { pitch: 200, duration: 4 }.is_valid());
}

#[test]
fn longest_note_waits_without_overflow() {
    let longest = u64::MAX / 150;
    let mut sequencer = PlaybackSequencer::new(vec![note(1, longest)]).unwrap();
    sequencer.advance(true);
    sequencer.advance(true);
    assert_eq!(sequencer.pending(), PlaybackAction::Wait(longest * 150));
}

#[test]
fn invalid_phrase_is_not_played() {
    let bad_pitch = vec![note(60, 1), NoteEvent { pitch: 128, duration: 1 }];
    assert!(PlaybackSequencer::new(bad_pitch.clone()).is_none());
    assert!(simulate(bad_pitch, true, None).is_none());
    let no_duration = vec![NoteEvent { pitch: 60, duration: 0 }];
    assert!(PlaybackSequencer::new(no_duration.clone()).is_none());
    assert!(simulate(no_duration, false, None).is_none());
}

#[test]
fn message_bytes_are_status_pitch_velocity() {
    let message = ChannelMessage { status: 0x90, pitch: 75, velocity: 0x64 };
    assert_eq!(message.bytes(), [0x90, 75, 0x64]);
}

#[test]
fn simulate_plays_the_whole_phrase() {
    let report = simulate(reference_phrase(), true, None).unwrap();
    assert_eq!(report.result, Ok(()));
    assert_eq!(report.waited, 5 * 150 + 150);
    assert_eq!(report.written.len(), 10);
    let pitches = [74u8, 74, 86, 0, 81];
    for (k, message) in report.written.iter().enumerate() {
        let status = if k % 2 == 0 { 0x90 } else { 0x80 };
        assert_eq!(*message, ChannelMessage { status, pitch: pitches[k / 2], velocity: 0x64 });
    }
    let late = simulate(reference_phrase(), true, Some(10)).unwrap();
    assert_eq!(late.result, Ok(()));
    assert_eq!(late.written, report.written);
    assert_eq!(late.waited, 900);
}

#[test]
fn simulate_agrees_with_a_mock_sink() {
    let phrase = vec![note(60, 2), note(61, 1), note(62, 5)];
    for fail_at in 0..8usize {
        let report = simulate(phrase.clone(), true, Some(fail_at)).unwrap();
        let mut sink = MockSink::new(true, Some(fail_at));
        let result = sink.play(phrase.clone());
        assert_eq!(report.result, result);
        assert_eq!(report.waited, sink.elapsed);
        let written: Vec<[u8; 3]> = report.written.iter().map(|m| m.bytes()).collect();
        assert_eq!(written, sink.taken);
        if fail_at < 6 {
            assert_eq!(result, Err(PlaybackFailure::DeviceWriteFailure));
            assert_eq!(report.written.len(), fail_at);
        } else {
            assert_eq!(result, Ok(()));
            assert_eq!(report.written.len(), 6);
        }
    }
}

#[test]
fn simulate_reports_a_failing_write() {
    let report = simulate(reference_phrase(), true, Some(2)).unwrap();
    assert_eq!(report.result, Err(PlaybackFailure::DeviceWriteFailure));
    assert_eq!(
        report.written,
        vec![
            ChannelMessage { status: 0x90, pitch: 74, velocity: 0x64 },
            ChannelMessage { status: 0x80, pitch: 74, velocity: 0x64 },
        ]
    );
    assert_eq!(report.waited, 150);
}

#[test]
fn simulate_reports_a_missing_device() {
    let report = simulate(reference_phrase(), false, Some(0)).unwrap();
    assert_eq!(report.result, Err(PlaybackFailure::DeviceUnavailable));
    assert!(report.written.is_empty());
    assert_eq!(report.waited, 0);
}
