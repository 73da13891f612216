//! Notes, their lengths and pitches, and two songs to play on a buzzer.

use vstd::prelude::*;

verus! {

/// The twelve notes of an octave, counted from A.
#[derive(Clone, Copy, Debug, PartialEq, Eq, Structural)]
pub enum NoteName {
    A,
    Bb,
    B,
    C,
    Db,
    D,
    Eb,
    E,
    F,
    Gb,
    G,
    Ab,
}

impl NoteName {
    /// How many semitones above A the note lies.
    pub open spec fn semitone(self) -> nat {
        match self {
            NoteName::A => 0,
            NoteName::Bb => 1,
            NoteName::B => 2,
            NoteName::C => 3,
            NoteName::Db => 4,
            NoteName::D => 5,
            NoteName::Eb => 6,
            NoteName::E => 7,
            NoteName::F => 8,
            NoteName::Gb => 9,
            NoteName::G => 10,
            NoteName::Ab => 11,
        }
    }

    /// How many semitones above A the note lies.
    pub fn to_usize(self) -> (n: usize)
        ensures
            n == self.semitone(),
    {
        match self {
            NoteName::A => 0,
            NoteName::Bb => 1,
            NoteName::B => 2,
            NoteName::C => 3,
            NoteName::Db => 4,
            NoteName::D => 5,
            NoteName::Eb => 6,
            NoteName::E => 7,
            NoteName::F => 8,
            NoteName::Gb => 9,
            NoteName::G => 10,
            NoteName::Ab => 11,
        }
    }
}

/// How long a note lasts.
#[derive(Clone, Copy, Debug, PartialEq, Eq, Structural)]
pub enum NoteDuration {
    Sixteenth,
    Eighth,
    Quarter,
    Half,
    Whole,
}

impl NoteDuration {
    /// The length in sixteenth notes.
    pub open spec fn spec_sixteenths(self) -> u64 {
        match self {
            NoteDuration::Sixteenth => 1,
            NoteDuration::Eighth => 2,
            NoteDuration::Quarter => 4,
            NoteDuration::Half => 8,
            NoteDuration::Whole => 16,
        }
    }

    /// The length in sixteenth notes: each duration is twice the one
    /// before it.
    #[verifier::when_used_as_spec(spec_sixteenths)]
    pub fn sixteenths(self) -> (n: u64)
        ensures
            n == self.spec_sixteenths(),
    {
        match self {
            NoteDuration::Sixteenth => 1,
            NoteDuration::Eighth => 2,
            NoteDuration::Quarter => 4,
            NoteDuration::Half => 8,
            NoteDuration::Whole => 16,
        }
    }
}

/// A note to play, or a rest.
#[derive(Clone, Copy, Debug, PartialEq, Eq, Structural)]
pub struct Note {
    /// The pitch in Hz; `None` for a rest.
    pub freq: Option<u16>,
    pub duration: NoteDuration,
}

/// A song: its notes, how long a sixteenth note lasts, and how long the
/// buzzer is silent at the end of each note, so that two notes of one
/// pitch can be told apart without leaving the beat.
#[derive(Debug, PartialEq, Eq)]
pub struct Song {
    pub notes: Vec<Note>,
    pub sixteenth_ms: u64,
    pub between_notes_ms: u64,
}

/// The number of keys on a piano.
pub const PIANO_KEYS: usize = 88;

/// The pitch of each key of a piano in Hz, from the lowest key up,
/// rounded to whole numbers; the 49th key is the A of 440 Hz.
pub const PIANO_NOTES_HZ: [u16; 88] = [
    28, 29, 31, 33, 35, 37, 39, 41, 44, 46, 49, 52,
    55, 58, 62, 65, 69, 73, 78, 82, 87, 92, 98, 104,
    110, 117, 123, 131, 139, 147, 156, 165, 175, 185, 196, 208,
    220, 233, 247, 262, 277, 294, 311, 330, 349, 370, 392, 415,
    440, 466, 494, 523, 554, 587, 622, 659, 698, 740, 784, 831,
    880, 932, 988, 1047, 1109, 1175, 1245, 1319, 1397, 1480, 1568, 1661,
    1760, 1865, 1976, 2093, 2217, 2349, 2489, 2637, 2794, 2960, 3136, 3322,
    3520, 3729, 3951, 4186,
];

/// The key that plays `name` in `octave`, counted from zero. Octaves run
/// from A to A flat and start with the lowest key of the piano; this is
/// not the usual numbering of octaves.
pub open spec fn key_index(name: NoteName, octave: u8) -> nat {
    name.semitone() + 12 * octave as nat
}

impl Note {
    /// The note `name` in `octave`, lasting `duration`. The piano must
    /// have that key.
    pub fn new(name: NoteName, octave: u8, duration: NoteDuration) -> (note: Note)
        requires
            key_index(name, octave) < PIANO_KEYS,
        ensures
            note.freq == Some(PIANO_NOTES_HZ[key_index(name, octave) as int]),
            note.duration == duration,
    {
        Note { freq: Some(note_to_freq(name, octave)), duration }
    }

    /// A rest that lasts `duration`.
    pub fn rest(duration: NoteDuration) -> (note: Note)
        ensures
            note == (Note { freq: None, duration }),
    {
        Note { freq: None, duration }
    }
}

/// How many milliseconds a sixteenth note lasts at `bpm` quarter notes a
/// minute: a minute has 60 000 ms and a quarter note four sixteenths.
pub fn tempo_to_sixteenth_ms(bpm: u64) -> (ms: u64)
    requires
        bpm > 0,
    ensures
        ms == 15_000int / bpm as int,
{
    15_000 / bpm
}

/// The pitch in Hz of `name` in `octave`. The piano must have that key.
pub fn note_to_freq(name: NoteName, octave: u8) -> (hz: u16)
    requires
        key_index(name, octave) < PIANO_KEYS,
    ensures
        hz == PIANO_NOTES_HZ[key_index(name, octave) as int],
{
    let index: usize = name.to_usize() + 12 * (octave as usize);
    PIANO_NOTES_HZ[index]
}

/// The longest that a sixteenth note can last: its length at one quarter
/// note a minute.
pub const MAX_SIXTEENTH_MS: u64 = 15_000;

impl Song {
    /// The song can be played: it has a note, and the silence at the end
    /// of a note is no longer than the shortest note.
    pub open spec fn playable(self) -> bool {
        &&& self.notes@.len() > 0
        &&& self.between_notes_ms <= self.sixteenth_ms
        &&& self.sixteenth_ms <= MAX_SIXTEENTH_MS
    }
}

/// The note `name` in `octave` as a value of contracts.
pub open spec fn pitched(name: NoteName, octave: u8, duration: NoteDuration) -> Note {
    Note { freq: Some(PIANO_NOTES_HZ[key_index(name, octave) as int]), duration }
}

/// The notes of "Twinkle, Twinkle, Little Star".
pub open spec fn twinkle_twinkle_notes() -> Seq<Note> {
    seq![
        pitched(NoteName::C, 3, NoteDuration::Quarter),
        pitched(NoteName::C, 3, NoteDuration::Quarter),
        pitched(NoteName::G, 3, NoteDuration::Quarter),
        pitched(NoteName::G, 3, NoteDuration::Quarter),
        pitched(NoteName::A, 4, NoteDuration::Quarter),
        pitched(NoteName::A, 4, NoteDuration::Quarter),
        pitched(NoteName::G, 3, NoteDuration::Half),
        pitched(NoteName::F, 3, NoteDuration::Quarter),
        pitched(NoteName::F, 3, NoteDuration::Quarter),
        pitched(NoteName::E, 3, NoteDuration::Quarter),
        pitched(NoteName::E, 3, NoteDuration::Quarter),
        pitched(NoteName::D, 3, NoteDuration::Quarter),
        pitched(NoteName::D, 3, NoteDuration::Quarter),
        pitched(NoteName::C, 3, NoteDuration::Half),
    ]
}

/// The first notes of "Für Elise".
pub open spec fn fur_elise_notes() -> Seq<Note> {
    seq![
        pitched(NoteName::E, 4, NoteDuration::Sixteenth),
        pitched(NoteName::Eb, 4, NoteDuration::Sixteenth),
        pitched(NoteName::E, 4, NoteDuration::Sixteenth),
        pitched(NoteName::Eb, 4, NoteDuration::Sixteenth),
        pitched(NoteName::E, 4, NoteDuration::Sixteenth),
        pitched(NoteName::B, 4, NoteDuration::Sixteenth),
        pitched(NoteName::D, 4, NoteDuration::Sixteenth),
        pitched(NoteName::C, 4, NoteDuration::Sixteenth),
        pitched(NoteName::A, 4, NoteDuration::Eighth),
        Note { freq: None, duration: NoteDuration::Sixteenth },
        pitched(NoteName::C, 3, NoteDuration::Sixteenth),
        pitched(NoteName::E, 3, NoteDuration::Sixteenth),
        pitched(NoteName::A, 4, NoteDuration::Sixteenth),
        pitched(NoteName::B, 4, NoteDuration::Eighth),
        Note { freq: None, duration: NoteDuration::Sixteenth },
        pitched(NoteName::E, 3, NoteDuration::Sixteenth),
        pitched(NoteName::Ab, 3, NoteDuration::Sixteenth),
        pitched(NoteName::B, 4, NoteDuration::Sixteenth),
        pitched(NoteName::C, 4, NoteDuration::Eighth),
    ]
}

/// "Twinkle, Twinkle, Little Star" at 180 quarter notes a minute.
pub fn twinkle_twinkle() -> (song: Song)
    ensures
        song.notes@ == twinkle_twinkle_notes(),
        song.sixteenth_ms == 83,
        song.between_notes_ms == 41,
        song.playable(),
{
    let mut notes: Vec<Note> = Vec::new();
    notes.push(Note::new(NoteName::C, 3, NoteDuration::Quarter));
    notes.push(Note::new(NoteName::C, 3, NoteDuration::Quarter));
    notes.push(Note::new(NoteName::G, 3, NoteDuration::Quarter));
    notes.push(Note::new(NoteName::G, 3, NoteDuration::Quarter));
    notes.push(Note::new(NoteName::A, 4, NoteDuration::Quarter));
    notes.push(Note::new(NoteName::A, 4, NoteDuration::Quarter));
    notes.push(Note::new(NoteName::G, 3, NoteDuration::Half));
    notes.push(Note::new(NoteName::F, 3, NoteDuration::Quarter));
    notes.push(Note::new(NoteName::F, 3, NoteDuration::Quarter));
    notes.push(Note::new(NoteName::E, 3, NoteDuration::Quarter));
    notes.push(Note::new(NoteName::E, 3, NoteDuration::Quarter));
    notes.push(Note::new(NoteName::D, 3, NoteDuration::Quarter));
    notes.push(Note::new(NoteName::D, 3, NoteDuration::Quarter));
    notes.push(Note::new(NoteName::C, 3, NoteDuration::Half));
    assert(notes@ =~= twinkle_twinkle_notes());
    Song {
        notes,
        sixteenth_ms: tempo_to_sixteenth_ms(180),
        between_notes_ms: tempo_to_sixteenth_ms(180) / 2,
    }
}

/// The first bars of "Für Elise" at 60 quarter notes a minute.
pub fn fur_elise() -> (song: Song)
    ensures
        song.notes@ == fur_elise_notes(),
        song.sixteenth_ms == 250,
        song.between_notes_ms == 15,
        song.playable(),
{
    let mut notes: Vec<Note> = Vec::new();
    notes.push(Note::new(NoteName::E, 4, NoteDuration::Sixteenth));
    notes.push(Note::new(NoteName::Eb, 4, NoteDuration::Sixteenth));
    // bar 1
    notes.push(Note::new(NoteName::E, 4, NoteDuration::Sixteenth));
    notes.push(Note::new(NoteName::Eb, 4, NoteDuration::Sixteenth));
    notes.push(Note::new(NoteName::E, 4, NoteDuration::Sixteenth));
    notes.push(Note::new(NoteName::B, 4, NoteDuration::Sixteenth));
    notes.push(Note::new(NoteName::D, 4, NoteDuration::Sixteenth));
    notes.push(Note::new(NoteName::C, 4, NoteDuration::Sixteenth));
    // bar 2
    notes.push(Note::new(NoteName::A, 4, NoteDuration::Eighth));
    notes.push(Note::rest(NoteDuration::Sixteenth));
    notes.push(Note::new(NoteName::C, 3, NoteDuration::Sixteenth));
    notes.push(Note::new(NoteName::E, 3, NoteDuration::Sixteenth));
    notes.push(Note::new(NoteName::A, 4, NoteDuration::Sixteenth));
    // bar 3
    notes.push(Note::new(NoteName::B, 4, NoteDuration::Eighth));
    notes.push(Note::rest(NoteDuration::Sixteenth));
    notes.push(Note::new(NoteName::E, 3, NoteDuration::Sixteenth));
    notes.push(Note::new(NoteName::Ab, 3, NoteDuration::Sixteenth));
    notes.push(Note::new(NoteName::B, 4, NoteDuration::Sixteenth));
    // bar 4
    notes.push(Note::new(NoteName::C, 4, NoteDuration::Eighth));
    assert(notes@ =~= fur_elise_notes());
    Song {
        notes,
        sixteenth_ms: tempo_to_sixteenth_ms(60),
        between_notes_ms: tempo_to_sixteenth_ms(60) / 16,
    }
}

/// Every key of the piano has a pitch that the buzzer's timer can make,
/// and the pitches rise from key to key.
pub proof fn lemma_piano_pitches(key: int)
    requires
        0 <= key < PIANO_KEYS,
    ensures
        28 <= PIANO_NOTES_HZ[key] <= 4186,
        key + 1 < PIANO_KEYS ==> PIANO_NOTES_HZ[key] < PIANO_NOTES_HZ[key + 1],
{
}

} // verus!
