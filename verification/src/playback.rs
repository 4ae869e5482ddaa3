//! Playing a phrase: the machine that turns a sequence of notes into writes
//! to an output device and waits between them.
//!
//! The machine performs nothing itself. It names the action that is due, and
//! is told whether the action succeeded; then it names the next one. Whoever
//! owns the device runs it: ask for `pending`, perform it, report with
//! `advance`, until the action is `Finished` or `Aborted`.

use vstd::prelude::*;
use crate::pitch::{note_to_midi_value, MAX_PITCH};

verus! {

/// Status byte of a note-on message.
pub const NOTE_ON_MSG: u8 = 0x90;

/// Status byte of a note-off message.
pub const NOTE_OFF_MSG: u8 = 0x80;

/// The velocity of every note.
pub const VELOCITY: u8 = 0x64;

/// Time units for which a note of duration 1 sounds, and for which the
/// machine lets the device settle after the last note.
pub const UNITS_PER_BEAT: u64 = 150;

/// One note of a phrase: its pitch and for how many beats it sounds.
#[derive(Clone, Copy, Debug, PartialEq, Eq, Structural)]
pub struct NoteEvent {
    pub pitch: u8,
    pub duration: u64,
}

impl NoteEvent {
    /// A note has a pitch of at most 127 and a positive duration whose time
    /// units fit in 64 bits. A pitch of 0 is a note like any other.
    pub open spec fn valid(self) -> bool {
        &&& self.pitch <= MAX_PITCH
        &&& 1 <= self.duration
        &&& self.duration * UNITS_PER_BEAT <= u64::MAX
    }

    /// The time units for which the note sounds.
    pub open spec fn units(self) -> int {
        self.duration * UNITS_PER_BEAT
    }

    /// Makes a note, if the pitch and the duration are those of a note.
    pub fn new(pitch: u8, duration: u64) -> (note: Option<NoteEvent>)
        ensures
            note is Some <==> (NoteEvent { pitch, duration }).valid(),
            note is Some ==> note.unwrap() == (NoteEvent { pitch, duration }),
    {
        let note = NoteEvent { pitch, duration };
        if note.is_valid() {
            Some(note)
        } else {
            None
        }
    }

    pub fn is_valid(&self) -> (valid: bool)
        ensures
            valid == self.valid(),
    {
        self.pitch <= MAX_PITCH && 1 <= self.duration && self.duration <= u64::MAX / UNITS_PER_BEAT
    }
}

/// A phrase is valid when each of its notes is.
pub open spec fn valid_phrase(phrase: Seq<NoteEvent>) -> bool {
    forall|i: int| 0 <= i < phrase.len() ==> (#[trigger] phrase[i]).valid()
}

/// The time units for which the notes of a phrase sound, all together.
pub open spec fn total_units(phrase: Seq<NoteEvent>) -> int
    decreases phrase.len(),
{
    if phrase.len() == 0 {
        0
    } else {
        total_units(phrase.drop_last()) + phrase.last().units()
    }
}

/// A three-byte channel-voice message.
#[derive(Clone, Copy, Debug, PartialEq, Eq, Structural)]
pub struct ChannelMessage {
    pub status: u8,
    pub pitch: u8,
    pub velocity: u8,
}

impl ChannelMessage {
    /// The message that starts a note.
    pub open spec fn note_on(pitch: u8) -> ChannelMessage {
        ChannelMessage { status: NOTE_ON_MSG, pitch, velocity: VELOCITY }
    }

    /// The message that ends a note.
    pub open spec fn note_off(pitch: u8) -> ChannelMessage {
        ChannelMessage { status: NOTE_OFF_MSG, pitch, velocity: VELOCITY }
    }

    /// The bytes of the message in the order in which they are sent.
    pub fn bytes(&self) -> (bytes: [u8; 3])
        ensures
            bytes@ == seq![self.status, self.pitch, self.velocity],
    {
        let bytes = [self.status, self.pitch, self.velocity];
        assert(bytes@ =~= seq![self.status, self.pitch, self.velocity]);
        bytes
    }
}

/// Why a playback stopped early.
#[derive(Clone, Copy, Debug, PartialEq, Eq, Structural)]
pub enum PlaybackFailure {
    /// No output device was there to play on.
    DeviceUnavailable,
    /// The device did not take a message.
    DeviceWriteFailure,
}

/// What the machine asks its owner to do next.
#[derive(Clone, Copy, Debug, PartialEq, Eq, Structural)]
pub enum PlaybackAction {
    /// Open the output device.
    Acquire,
    /// Send the message to the device.
    Write(ChannelMessage),
    /// Let the given number of time units pass.
    Wait(u64),
    /// Nothing more: the phrase was played to its end.
    Finished,
    /// Nothing more: the playback failed.
    Aborted(PlaybackFailure),
}

/// Where a playback stands.
#[derive(Clone, Copy, Debug, PartialEq, Eq, Structural)]
pub enum Stage {
    Acquire,
    NoteOn,
    Hold,
    NoteOff,
    Settle,
    Finished,
    Aborted(PlaybackFailure),
}

/// The playback machine as a value: the phrase, the note it is at, and the
/// stage of that note.
pub struct SequencerState {
    pub phrase: Seq<NoteEvent>,
    pub index: int,
    pub stage: Stage,
}

impl SequencerState {
    /// The state in which the playback of a phrase starts.
    pub open spec fn initial(phrase: Seq<NoteEvent>) -> SequencerState {
        SequencerState { phrase, index: 0, stage: Stage::Acquire }
    }

    /// The stage that begins note `index`, or the settle period if the phrase
    /// has no such note.
    pub open spec fn stage_before(phrase: Seq<NoteEvent>, index: int) -> Stage {
        if index < phrase.len() {
            Stage::NoteOn
        } else {
            Stage::Settle
        }
    }

    pub open spec fn valid(self) -> bool {
        &&& valid_phrase(self.phrase)
        &&& 0 <= self.index <= self.phrase.len()
        &&& match self.stage {
            Stage::Acquire => self.index == 0,
            Stage::NoteOn | Stage::Hold | Stage::NoteOff => self.index < self.phrase.len(),
            Stage::Settle | Stage::Finished | Stage::Aborted(_) => true,
        }
    }

    /// The action that is due.
    pub open spec fn pending(self) -> PlaybackAction {
        match self.stage {
            Stage::Acquire => PlaybackAction::Acquire,
            Stage::NoteOn => PlaybackAction::Write(
                ChannelMessage::note_on(self.phrase[self.index].pitch),
            ),
            Stage::Hold => PlaybackAction::Wait(self.phrase[self.index].units() as u64),
            Stage::NoteOff => PlaybackAction::Write(
                ChannelMessage::note_off(self.phrase[self.index].pitch),
            ),
            Stage::Settle => PlaybackAction::Wait(UNITS_PER_BEAT),
            Stage::Finished => PlaybackAction::Finished,
            Stage::Aborted(failure) => PlaybackAction::Aborted(failure),
        }
    }

    /// The state after the due action was performed, with or without success.
    /// A device that cannot be opened and a message that cannot be sent abort
    /// the playback on the spot; a wait always passes; a playback that has
    /// finished or was aborted stays as it is.
    pub open spec fn step(self, succeeded: bool) -> SequencerState {
        match self.stage {
            Stage::Acquire => if succeeded {
                SequencerState { stage: Self::stage_before(self.phrase, self.index), ..self }
            } else {
                SequencerState { stage: Stage::Aborted(PlaybackFailure::DeviceUnavailable), ..self }
            },
            Stage::NoteOn => if succeeded {
                SequencerState { stage: Stage::Hold, ..self }
            } else {
                SequencerState { stage: Stage::Aborted(PlaybackFailure::DeviceWriteFailure), ..self }
            },
            Stage::Hold => SequencerState { stage: Stage::NoteOff, ..self },
            Stage::NoteOff => if succeeded {
                SequencerState {
                    index: self.index + 1,
                    stage: Self::stage_before(self.phrase, self.index + 1),
                    ..self
                }
            } else {
                SequencerState { stage: Stage::Aborted(PlaybackFailure::DeviceWriteFailure), ..self }
            },
            Stage::Settle => SequencerState { stage: Stage::Finished, ..self },
            Stage::Finished => self,
            Stage::Aborted(_) => self,
        }
    }

    /// How the playback ended, if it has.
    pub open spec fn outcome(self) -> Option<Result<(), PlaybackFailure>> {
        match self.stage {
            Stage::Finished => Some(Ok(())),
            Stage::Aborted(failure) => Some(Err(failure)),
            _ => None,
        }
    }
}

/// The playback of one phrase on one device.
#[derive(Debug)]
pub struct PlaybackSequencer {
    phrase: Vec<NoteEvent>,
    index: usize,
    stage: Stage,
}

impl PlaybackSequencer {
    #[verifier::type_invariant]
    spec fn consistent(self) -> bool {
        self.view().valid()
    }

    /// The machine as a value.
    pub closed spec fn view(&self) -> SequencerState {
        SequencerState { phrase: self.phrase@, index: self.index as int, stage: self.stage }
    }

    /// Sets up the playback of a phrase, if the phrase is valid. The first
    /// action due is to open the device.
    pub fn new(phrase: Vec<NoteEvent>) -> (sequencer: Option<PlaybackSequencer>)
        ensures
            sequencer is Some <==> valid_phrase(phrase@),
            sequencer is Some ==> sequencer.unwrap()@ == SequencerState::initial(phrase@),
    {
        let mut i: usize = 0;
        while i < phrase.len()
            invariant
                i <= phrase@.len(),
                forall|j: int| 0 <= j < i ==> (#[trigger] phrase@[j]).valid(),
            decreases phrase@.len() - i,
        {
            if !phrase[i].is_valid() {
                return None;
            }
            i += 1;
        }
        Some(PlaybackSequencer { phrase, index: 0, stage: Stage::Acquire })
    }

    /// The action that is due.
    pub fn pending(&self) -> (action: PlaybackAction)
        ensures
            action == self@.pending(),
            self@.valid(),
    {
        proof {
            use_type_invariant(self);
        }
        match self.stage {
            Stage::Acquire => PlaybackAction::Acquire,
            Stage::NoteOn => PlaybackAction::Write(
                ChannelMessage {
                    status: NOTE_ON_MSG,
                    pitch: self.phrase[self.index].pitch,
                    velocity: VELOCITY,
                },
            ),
            Stage::Hold => PlaybackAction::Wait(self.phrase[self.index].duration * UNITS_PER_BEAT),
            Stage::NoteOff => PlaybackAction::Write(
                ChannelMessage {
                    status: NOTE_OFF_MSG,
                    pitch: self.phrase[self.index].pitch,
                    velocity: VELOCITY,
                },
            ),
            Stage::Settle => PlaybackAction::Wait(UNITS_PER_BEAT),
            Stage::Finished => PlaybackAction::Finished,
            Stage::Aborted(failure) => PlaybackAction::Aborted(failure),
        }
    }

    /// Takes note of how the due action went, and moves on to the next.
    pub fn advance(&mut self, succeeded: bool)
        ensures
            final(self)@ == old(self)@.step(succeeded),
            final(self)@.valid(),
    {
        proof {
            use_type_invariant(&*self);
        }
        match self.stage {
            Stage::Acquire => {
                if !succeeded {
                    self.stage = Stage::Aborted(PlaybackFailure::DeviceUnavailable);
                } else if self.index < self.phrase.len() {
                    self.stage = Stage::NoteOn;
                } else {
                    self.stage = Stage::Settle;
                }
            },
            Stage::NoteOn => {
                if succeeded {
                    self.stage = Stage::Hold;
                } else {
                    self.stage = Stage::Aborted(PlaybackFailure::DeviceWriteFailure);
                }
            },
            Stage::Hold => {
                self.stage = Stage::NoteOff;
            },
            Stage::NoteOff => {
                let count: usize = self.phrase.len();
                if !succeeded {
                    self.stage = Stage::Aborted(PlaybackFailure::DeviceWriteFailure);
                } else if self.index + 1 < count {
                    self.index = self.index + 1;
                    self.stage = Stage::NoteOn;
                } else {
                    self.stage = Stage::Settle;
                    self.index = self.index + 1;
                }
            },
            Stage::Settle => {
                self.stage = Stage::Finished;
            },
            Stage::Finished => {},
            Stage::Aborted(_) => {},
        }
    }

    /// How the playback ended: `None` as long as an action is due.
    pub fn outcome(&self) -> (outcome: Option<Result<(), PlaybackFailure>>)
        ensures
            outcome == self@.outcome(),
    {
        match self.stage {
            Stage::Finished => Some(Ok(())),
            Stage::Aborted(failure) => Some(Err(failure)),
            _ => None,
        }
    }
}

/// Whatever the outcome of an action, a valid machine stays valid and keeps
/// its phrase.
pub proof fn lemma_step_keeps_valid(state: SequencerState, succeeded: bool)
    requires
        state.valid(),
    ensures
        state.step(succeeded).valid(),
        state.step(succeeded).phrase == state.phrase,
{
}

/// A playback that has ended stays as it ended: it asks for no further
/// action, whatever it is told.
pub proof fn lemma_ended_stays_ended(state: SequencerState, succeeded: bool)
    requires
        state.outcome() is Some,
    ensures
        state.step(succeeded) == state,
        !(state.pending() is Write),
        !(state.pending() is Wait),
        !(state.pending() is Acquire),
{
}

/// A device that cannot be opened and a message that cannot be sent end the
/// playback at once, each with its own failure; nothing else can fail.
pub proof fn lemma_failure_aborts(state: SequencerState)
    requires
        state.valid(),
    ensures
        state.pending() is Acquire ==> state.step(false).outcome() == Some(
            Err::<(), PlaybackFailure>(PlaybackFailure::DeviceUnavailable),
        ),
        state.pending() is Write ==> state.step(false).outcome() == Some(
            Err::<(), PlaybackFailure>(PlaybackFailure::DeviceWriteFailure),
        ),
        state.pending() is Wait ==> state.step(false) == state.step(true),
        state.outcome() is None ==> state.step(true).outcome() is None || state.step(
            true,
        ).outcome() == Some(Ok::<(), PlaybackFailure>(())),
{
}

/// The messages of a phrase come in pairs: at each even position the note-on
/// of a note, right behind it the note-off of the same note.
pub proof fn lemma_writes_alternate(phrase: Seq<NoteEvent>, note: int)
    requires
        0 <= note < phrase.len(),
    ensures
        phrase_writes(phrase).len() == 2 * phrase.len(),
        phrase_writes(phrase)[2 * note] == ChannelMessage::note_on(phrase[note].pitch),
        phrase_writes(phrase)[2 * note + 1] == ChannelMessage::note_off(phrase[note].pitch),
{
}

/// What a playback against a scripted device did.
#[derive(Debug)]
pub struct PlaybackReport {
    /// The messages that the device took, in the order in which they were
    /// sent.
    pub written: Vec<ChannelMessage>,
    /// The time units that were waited, all together.
    pub waited: u128,
    /// How the playback ended.
    pub result: Result<(), PlaybackFailure>,
}

/// The messages of a whole phrase: for each note in turn its note-on, then
/// its note-off.
pub open spec fn phrase_writes(phrase: Seq<NoteEvent>) -> Seq<ChannelMessage> {
    Seq::new(
        2 * phrase.len(),
        |k: int|
            if k % 2 == 0 {
                ChannelMessage::note_on(phrase[k / 2].pitch)
            } else {
                ChannelMessage::note_off(phrase[k / 2].pitch)
            },
    )
}

/// Whether the scripted device takes every message of the phrase.
pub open spec fn takes_all(phrase: Seq<NoteEvent>, failing_write: Option<usize>) -> bool {
    failing_write is None || failing_write.unwrap() >= 2 * phrase.len()
}

proof fn lemma_total_units_grows(phrase: Seq<NoteEvent>, count: int)
    requires
        0 <= count < phrase.len(),
    ensures
        total_units(phrase.take(count + 1)) == total_units(phrase.take(count)) + phrase[count].units(),
{
    assert(phrase.take(count + 1).drop_last() =~= phrase.take(count));
}

/// Performs the due action of `sequencer` against the scripted device and
/// reports to the machine how it went.
fn perform(
    sequencer: &mut PlaybackSequencer,
    written: &mut Vec<ChannelMessage>,
    waited: &mut u128,
    device_present: bool,
    failing_write: Option<usize>,
)
    requires
        *old(waited) <= u128::MAX - u64::MAX,
    ensures
        old(sequencer)@.valid(),
        final(sequencer)@.valid(),
        match old(sequencer)@.pending() {
            PlaybackAction::Acquire => {
                &&& final(sequencer)@ == old(sequencer)@.step(device_present)
                &&& final(written)@ == old(written)@
                &&& *final(waited) == *old(waited)
            },
            PlaybackAction::Write(message) => if failing_write == Some(old(written)@.len() as usize) {
                &&& final(sequencer)@ == old(sequencer)@.step(false)
                &&& final(written)@ == old(written)@
                &&& *final(waited) == *old(waited)
            } else {
                &&& final(sequencer)@ == old(sequencer)@.step(true)
                &&& final(written)@ == old(written)@.push(message)
                &&& *final(waited) == *old(waited)
            },
            PlaybackAction::Wait(units) => {
                &&& final(sequencer)@ == old(sequencer)@.step(true)
                &&& final(written)@ == old(written)@
                &&& *final(waited) == *old(waited) + units
            },
            PlaybackAction::Finished | PlaybackAction::Aborted(_) => {
                &&& final(sequencer)@ == old(sequencer)@
                &&& final(written)@ == old(written)@
                &&& *final(waited) == *old(waited)
            },
        },
{
    match sequencer.pending() {
        PlaybackAction::Acquire => {
            sequencer.advance(device_present);
        },
        PlaybackAction::Write(message) => {
            let fails = match failing_write {
                Some(position) => position == written.len(),
                None => false,
            };
            if fails {
                sequencer.advance(false);
            } else {
                written.push(message);
                sequencer.advance(true);
            }
        },
        PlaybackAction::Wait(units) => {
            *waited = *waited + units as u128;
            sequencer.advance(true);
        },
        PlaybackAction::Finished => {},
        PlaybackAction::Aborted(_) => {},
    }
}

/// Plays a phrase against a scripted device and reports what happened.
///
/// The device is there or not (`device_present`), and it refuses the message
/// at position `failing_write`, counted from 0 over all messages sent, if
/// there is such a position. Returns `None` exactly if the phrase is not
/// valid.
///
/// On a device that takes every message, a phrase of n notes is played as 2n
/// messages, note-on and note-off in turn, and the waits add up to the notes'
/// time units and one settle period. A missing device ends the playback
/// before anything is written or waited for. A refused message ends it with
/// the messages before it written and nothing after it attempted.
pub fn simulate(phrase: Vec<NoteEvent>, device_present: bool, failing_write: Option<usize>) -> (report:
    Option<PlaybackReport>)
    ensures
        report is Some <==> valid_phrase(phrase@),
        report is Some && !device_present ==> {
            &&& report.unwrap().written@ == Seq::<ChannelMessage>::empty()
            &&& report.unwrap().waited == 0
            &&& report.unwrap().result == Err::<(), PlaybackFailure>(PlaybackFailure::DeviceUnavailable)
        },
        report is Some && device_present && takes_all(phrase@, failing_write) ==> {
            &&& report.unwrap().written@ == phrase_writes(phrase@)
            &&& report.unwrap().written@.len() == 2 * phrase@.len()
            &&& report.unwrap().waited == total_units(phrase@) + UNITS_PER_BEAT
            &&& report.unwrap().result == Ok::<(), PlaybackFailure>(())
        },
        report is Some && device_present && !takes_all(phrase@, failing_write) ==> {
            &&& report.unwrap().written@ == phrase_writes(phrase@).take(failing_write.unwrap() as int)
            &&& report.unwrap().waited == total_units(
                phrase@.take((failing_write.unwrap() + 1) / 2),
            )
            &&& report.unwrap().result == Err::<(), PlaybackFailure>(PlaybackFailure::DeviceWriteFailure)
        },
{
    let ghost notes = phrase@;
    let count: usize = phrase.len();
    let mut sequencer = match PlaybackSequencer::new(phrase) {
        Some(sequencer) => sequencer,
        None => {
            return None;
        },
    };
    let mut written: Vec<ChannelMessage> = Vec::new();
    let mut waited: u128 = 0;
    perform(&mut sequencer, &mut written, &mut waited, device_present, failing_write);
    if !device_present {
        return Some(
            PlaybackReport { written, waited, result: Err(PlaybackFailure::DeviceUnavailable) },
        );
    }
    let mut i: usize = 0;
    while i < count
        invariant
            notes == phrase@,
            notes.len() == count,
            valid_phrase(notes),
            device_present,
            i <= count,
            sequencer@ == (SequencerState {
                phrase: notes,
                index: i as int,
                stage: SequencerState::stage_before(notes, i as int),
            }),
            written@ == phrase_writes(notes).take(2 * i),
            waited == total_units(notes.take(i as int)),
            waited <= i * u64::MAX,
            failing_write is Some ==> failing_write.unwrap() >= 2 * i,
        decreases count - i,
    {
        proof {
            lemma_total_units_grows(notes, i as int);
        }
        perform(&mut sequencer, &mut written, &mut waited, device_present, failing_write);
        if sequencer.outcome().is_some() {
            return Some(
                PlaybackReport { written, waited, result: Err(PlaybackFailure::DeviceWriteFailure) },
            );
        }
        assert(written@ =~= phrase_writes(notes).take(2 * i + 1));
        perform(&mut sequencer, &mut written, &mut waited, device_present, failing_write);
        perform(&mut sequencer, &mut written, &mut waited, device_present, failing_write);
        if sequencer.outcome().is_some() {
            return Some(
                PlaybackReport { written, waited, result: Err(PlaybackFailure::DeviceWriteFailure) },
            );
        }
        assert(written@ =~= phrase_writes(notes).take(2 * i + 2));
        i += 1;
    }
    assert(notes.take(count as int) =~= notes);
    assert(written@ =~= phrase_writes(notes));
    perform(&mut sequencer, &mut written, &mut waited, device_present, failing_write);
    Some(PlaybackReport { written, waited, result: Ok(()) })
}

/// The phrase that the play key plays: D5, D5, D6, the lowest note of all,
/// and A5, each for one beat.
pub fn reference_phrase() -> (phrase: Vec<NoteEvent>)
    ensures
        phrase@ == seq![
            NoteEvent { pitch: 74, duration: 1 },
            NoteEvent { pitch: 74, duration: 1 },
            NoteEvent { pitch: 86, duration: 1 },
            NoteEvent { pitch: 0, duration: 1 },
            NoteEvent { pitch: 81, duration: 1 },
        ],
        valid_phrase(phrase@),
{
    proof {
        reveal_strlit("D5");
        reveal_strlit("D6");
        reveal_strlit("A5");
    }
    let d5 = note_to_midi_value("D5");
    let d6 = note_to_midi_value("D6");
    let a5 = note_to_midi_value("A5");
    assert(d5 == Some(74u8));
    assert(d6 == Some(86u8));
    assert(a5 == Some(81u8));
    let mut phrase: Vec<NoteEvent> = Vec::new();
    phrase.push(NoteEvent { pitch: d5.unwrap(), duration: 1 });
    phrase.push(NoteEvent { pitch: d5.unwrap(), duration: 1 });
    phrase.push(NoteEvent { pitch: d6.unwrap(), duration: 1 });
    phrase.push(NoteEvent { pitch: 0, duration: 1 });
    phrase.push(NoteEvent { pitch: a5.unwrap(), duration: 1 });
    assert(phrase@ =~= seq![
        NoteEvent { pitch: 74, duration: 1 },
        NoteEvent { pitch: 74, duration: 1 },
        NoteEvent { pitch: 86, duration: 1 },
        NoteEvent { pitch: 0, duration: 1 },
        NoteEvent { pitch: 81, duration: 1 },
    ]);
    phrase
}

} // verus!
