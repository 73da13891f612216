//! A player of songs on a piezo buzzer.
//!
//! The player neither reads a clock nor drives the buzzer: it is told
//! the time, says what the buzzer is to do, and says when it wants to be
//! called again.

pub mod songs;

use vstd::prelude::*;
use crate::jukebox::songs::{fur_elise, twinkle_twinkle, Note, Song, MAX_SIXTEENTH_MS};

verus! {

/// Why a song is not played.
#[derive(Clone, Copy, Debug, PartialEq, Eq, Structural)]
pub enum JukeboxError {
    /// Cannot start playing while another song plays; try again later.
    BusyPlaying,
    /// Song index out of bounds.
    BadSongIndex,
}

impl JukeboxError {
    /// The code under which the error travels to a client.
    pub open spec fn code(self) -> u16 {
        match self {
            JukeboxError::BusyPlaying => 1,
            JukeboxError::BadSongIndex => 2,
        }
    }

    /// Encodes the error for the reply to a client.
    pub fn to_u16(self) -> (x: u16)
        ensures
            x == self.code(),
    {
        match self {
            JukeboxError::BusyPlaying => 1,
            JukeboxError::BadSongIndex => 2,
        }
    }

    /// Decodes what a client received: the error with the code `x`, if
    /// there is one.
    pub fn from_u32(x: u32) -> (e: Option<JukeboxError>)
        ensures
            x == 1 ==> e == Some(JukeboxError::BusyPlaying),
            x == 2 ==> e == Some(JukeboxError::BadSongIndex),
            x != 1 && x != 2 ==> e is None,
    {
        match x {
            1 => Some(JukeboxError::BusyPlaying),
            2 => Some(JukeboxError::BadSongIndex),
            _ => None,
        }
    }
}

impl From<JukeboxError> for u16 {
    fn from(err: JukeboxError) -> (x: u16) {
        err.to_u16()
    }
}

impl vstd::std_specs::convert::FromSpecImpl<JukeboxError> for u16 {
    open spec fn obeys_from_spec() -> bool {
        true
    }

    open spec fn from_spec(err: JukeboxError) -> u16 {
        err.code()
    }
}

/// What the buzzer is to do.
#[derive(Clone, Copy, Debug, PartialEq, Eq, Structural)]
pub enum PiezoCommand {
    /// Sound at this many Hz.
    On(u16),
    /// Be silent.
    Off,
}

/// Whether a song goes on.
#[derive(Clone, Copy, Debug, PartialEq, Eq, Structural)]
pub enum SongStatus {
    /// It does; the player wants to be called again at this time. To
    /// call it earlier does no harm.
    StillPlaying(u64),
    Done,
}

/// The latest time at which a note can be started: the end of the
/// longest note is still a time.
pub const MAX_NOW: u64 = u64::MAX - 16 * MAX_SIXTEENTH_MS;

/// How many songs there are.
pub const SONGS: usize = 2;

/// The notes of the song with the given index.
pub open spec fn song_notes(index: usize) -> Seq<Note> {
    if index == 0 {
        songs::fur_elise_notes()
    } else {
        songs::twinkle_twinkle_notes()
    }
}

/// How long a sixteenth note lasts in the song with the given index.
pub open spec fn song_sixteenth_ms(index: usize) -> u64 {
    if index == 0 {
        250
    } else {
        83
    }
}

/// How long the buzzer is silent at the end of each note of the song
/// with the given index.
pub open spec fn song_between_notes_ms(index: usize) -> u64 {
    if index == 0 {
        15
    } else {
        41
    }
}

/// The song with the given index, if there is one.
pub fn song(index: usize) -> (s: Option<Song>)
    ensures
        index >= SONGS <==> s is None,
        s matches Some(x) ==> x.notes@ == song_notes(index) && x.sixteenth_ms == song_sixteenth_ms(
            index,
        ) && x.between_notes_ms == song_between_notes_ms(index) && x.playable(),
{
    if index == 0 {
        Some(fur_elise())
    } else if index == 1 {
        Some(twinkle_twinkle())
    } else {
        None
    }
}

/// A song that is being played.
#[derive(Debug, PartialEq, Eq)]
pub struct CurrentSong {
    pub song: Song,
    /// The index of the current note; the number of notes once the song
    /// is over.
    pub note: usize,
    /// The buzzer stays on the current note's pitch until this time; 0
    /// during a rest.
    pub piezo_on_deadline: u64,
    /// The buzzer stays silent until this time, when the current note
    /// ends; never before the other deadline.
    pub piezo_off_deadline: u64,
}

/// How long a note of `song` lasts in milliseconds.
pub open spec fn duration_ms(song: Song, note: Note) -> int {
    note.duration.spec_sixteenths() * song.sixteenth_ms
}

/// What the buzzer is to do at the start of a note.
pub open spec fn command_for(note: Note) -> PiezoCommand {
    match note.freq {
        Some(freq) => PiezoCommand::On(freq),
        None => PiezoCommand::Off,
    }
}

impl CurrentSong {
    /// What holds of the player at every step.
    pub open spec fn wf(self) -> bool {
        &&& self.song.playable()
        &&& self.note <= self.song.notes@.len()
        &&& self.piezo_on_deadline <= self.piezo_off_deadline
    }

    /// The player of `song` at note `note`, begun at `now`: the note ends
    /// after its duration, and if it has a pitch the buzzer falls silent
    /// a little before that.
    pub open spec fn at_note(song: Song, note: usize, now: u64) -> CurrentSong {
        let off = (now + duration_ms(song, song.notes@[note as int])) as u64;
        CurrentSong {
            song,
            note,
            piezo_on_deadline: if song.notes@[note as int].freq is Some {
                (off - song.between_notes_ms) as u64
            } else {
                0
            },
            piezo_off_deadline: off,
        }
    }

    /// When a player that has just begun a note wants to be called
    /// again: when the buzzer is to fall silent, or at the end of a rest.
    pub open spec fn next_call(self) -> u64 {
        if self.song.notes@[self.note as int].freq is Some {
            self.piezo_on_deadline
        } else {
            self.piezo_off_deadline
        }
    }

    /// Begins to play `song` at the time `now`, with what the buzzer is
    /// to do for the first note.
    pub fn start(song: Song, now: u64) -> (r: (CurrentSong, PiezoCommand))
        requires
            song.playable(),
            now <= MAX_NOW,
        ensures
            r.0 == CurrentSong::at_note(song, 0, now),
            r.1 == command_for(song.notes@[0]),
            r.0.wf(),
    {
        let mut this = CurrentSong { song, note: 0, piezo_on_deadline: 0, piezo_off_deadline: 0 };
        let (_, command) = this.start_current_note(now);
        (this, command)
    }

    /// Sets the deadlines of the current note, begun at `now`; yields
    /// when to call again and what the buzzer is to do.
    fn start_current_note(&mut self, now: u64) -> (r: (u64, PiezoCommand))
        requires
            old(self).song.playable(),
            old(self).note < old(self).song.notes@.len(),
            now <= MAX_NOW,
        ensures
            *final(self) == CurrentSong::at_note(old(self).song, old(self).note, now),
            final(self).wf(),
            r.0 == final(self).next_call(),
            r.1 == command_for(old(self).song.notes@[old(self).note as int]),
            now <= r.0,
    {
        let note = self.song.notes[self.note];
        let sixteenths: u64 = note.duration.sixteenths();
        assert(sixteenths * self.song.sixteenth_ms <= 16 * MAX_SIXTEENTH_MS) by (nonlinear_arith)
            requires
                sixteenths <= 16,
                self.song.sixteenth_ms <= MAX_SIXTEENTH_MS,
        ;
        assert(sixteenths * self.song.sixteenth_ms >= self.song.sixteenth_ms) by (nonlinear_arith)
            requires
                sixteenths >= 1,
        ;
        let duration: u64 = sixteenths * self.song.sixteenth_ms;
        self.piezo_off_deadline = now + duration;
        match note.freq {
            Some(freq) => {
                // subtract the `between_notes_ms` from the note duration so we can
                // hear a break between subsequent notes of the same pitch without
                // getting off the beat
                self.piezo_on_deadline = self.piezo_off_deadline - self.song.between_notes_ms;
                (self.piezo_on_deadline, PiezoCommand::On(freq))
            },
            None => {
                // no frequency; this is a rest. The buzzer should already be
                // off, but might not be if there was no chance to run between
                // the two deadlines of the previous note.
                self.piezo_on_deadline = 0;
                (self.piezo_off_deadline, PiezoCommand::Off)
            },
        }
    }

    /// The player after a call at the time `now`, with whether the song
    /// goes on and what the buzzer is to do, if anything.
    ///
    /// A song that is over is done. Before the first deadline nothing
    /// changes. Between the deadlines the buzzer is silenced. After the
    /// second the next note begins at `now`, or, after the last note,
    /// the buzzer is silenced and the song is done.
    pub open spec fn updated(self, now: u64) -> (CurrentSong, SongStatus, Option<PiezoCommand>) {
        if self.note >= self.song.notes@.len() {
            (self, SongStatus::Done, None)
        } else if now < self.piezo_on_deadline {
            (self, SongStatus::StillPlaying(self.piezo_on_deadline), None)
        } else if now < self.piezo_off_deadline {
            (self, SongStatus::StillPlaying(self.piezo_off_deadline), Some(PiezoCommand::Off))
        } else if self.note + 1 < self.song.notes@.len() {
            let next = CurrentSong::at_note(self.song, (self.note + 1) as usize, now);
            (
                next,
                SongStatus::StillPlaying(next.next_call()),
                Some(command_for(self.song.notes@[self.note + 1])),
            )
        } else {
            (
                CurrentSong { note: (self.note + 1) as usize, ..self },
                SongStatus::Done,
                Some(PiezoCommand::Off),
            )
        }
    }

    /// Moves the player on to the time `now`.
    pub fn update(&mut self, now: u64) -> (r: (SongStatus, Option<PiezoCommand>))
        requires
            old(self).wf(),
            now <= MAX_NOW,
        ensures
            (*final(self), r.0, r.1) == old(self).updated(now),
            final(self).wf(),
            final(self).song == old(self).song,
            final(self).note == old(self).note || final(self).note == old(self).note + 1,
            r.0 matches SongStatus::StillPlaying(deadline) ==> now <= deadline && final(self).note
                < final(self).song.notes@.len(),
    {
        if self.note >= self.song.notes.len() {
            return (SongStatus::Done, None);
        }
        // see if we're still earlier than the "on" or "off" deadlines
        if now < self.piezo_on_deadline {
            return (SongStatus::StillPlaying(self.piezo_on_deadline), None);
        }
        if now < self.piezo_off_deadline {
            return (SongStatus::StillPlaying(self.piezo_off_deadline), Some(PiezoCommand::Off));
        }
        // current note is done; advance to next
        self.note += 1;
        if self.note < self.song.notes.len() {
            let (deadline, command) = self.start_current_note(now);
            (SongStatus::StillPlaying(deadline), Some(command))
        } else {
            (SongStatus::Done, Some(PiezoCommand::Off))
        }
    }
}

/// The notification that the timer posts.
pub const TIMER_NOTIFICATION: u32 = 1;

/// What is to be done after a call of the player's service: up to two
/// commands for the buzzer, in this order, and the time for which the
/// timer is to be set.
#[derive(Clone, Copy, Debug, PartialEq, Eq)]
pub struct Effects {
    pub first: Option<PiezoCommand>,
    pub second: Option<PiezoCommand>,
    pub timer: Option<u64>,
}

/// The player's service: it plays one song at a time.
#[derive(Debug, PartialEq, Eq)]
pub struct ServerImpl {
    pub song: Option<CurrentSong>,
}

impl ServerImpl {
    /// What holds of the service at every step.
    pub open spec fn wf(self) -> bool {
        self.song matches Some(current) ==> current.wf() && current.note
            < current.song.notes@.len()
    }

    /// The service after the player was moved on to `now`: a song that
    /// goes on stays and the timer is set for its next call; a song
    /// that is done is dropped and the timer is left alone.
    pub open spec fn updated(self, now: u64) -> (ServerImpl, Option<PiezoCommand>, Option<u64>) {
        match self.song {
            None => (self, None, None),
            Some(current) => match current.updated(now).1 {
                SongStatus::StillPlaying(deadline) => (
                    ServerImpl { song: Some(current.updated(now).0) },
                    current.updated(now).2,
                    Some(deadline),
                ),
                SongStatus::Done => (ServerImpl { song: None }, current.updated(now).2, None),
            },
        }
    }

    /// The service with nothing to play.
    pub fn new() -> (server: ServerImpl)
        ensures
            server.song is None,
            server.wf(),
    {
        ServerImpl { song: None }
    }

    /// Moves the song that is played, if any, on to the time `now`:
    /// yields what the buzzer is to do, if anything, and the time for
    /// which the timer is to be set, if the song goes on.
    pub fn update(&mut self, now: u64) -> (r: (Option<PiezoCommand>, Option<u64>))
        requires
            old(self).wf(),
            now <= MAX_NOW,
        ensures
            (*final(self), r.0, r.1) == old(self).updated(now),
            final(self).wf(),
            r.1 matches Some(deadline) ==> now <= deadline,
            r.1 is Some <==> final(self).song is Some,
    {
        // only have something to do if we're playing a song
        let mut current = match self.song.take() {
            Some(current) => current,
            None => {
                return (None, None);
            },
        };
        // either set a new timer, or we're done
        match current.update(now) {
            (SongStatus::StillPlaying(deadline), command) => {
                self.song = Some(current);
                (command, Some(deadline))
            },
            (SongStatus::Done, command) => (command, None),
        }
    }

    /// Which notifications the service wants: the timer's while a song
    /// is played, none otherwise.
    pub fn current_notification_mask(&self) -> (mask: u32)
        ensures
            mask == if self.song is Some {
                TIMER_NOTIFICATION
            } else {
                0
            },
    {
        if self.song.is_some() {
            TIMER_NOTIFICATION
        } else {
            0
        }
    }

    /// A client asks for the song `song_index` at the time `now`. It is
    /// refused while a song is played, and if there is no such song.
    /// Otherwise the song begins, and the player is moved on to `now`
    /// at once.
    pub fn play_song(&mut self, song_index: usize, now: u64) -> (r: Result<Effects, JukeboxError>)
        requires
            old(self).wf(),
            now <= MAX_NOW,
        ensures
            final(self).wf(),
            old(self).song is Some ==> r == Err::<Effects, JukeboxError>(JukeboxError::BusyPlaying)
                && *final(self) == *old(self),
            old(self).song is None && song_index >= SONGS ==> r == Err::<Effects, JukeboxError>(
                JukeboxError::BadSongIndex,
            ) && *final(self) == *old(self),
            old(self).song is None && song_index < SONGS ==> (final(self).song matches Some(current)
                && {
                &&& current.song.notes@ == song_notes(song_index)
                &&& current.song.sixteenth_ms == song_sixteenth_ms(song_index)
                &&& current.song.between_notes_ms == song_between_notes_ms(song_index)
                &&& current == CurrentSong::at_note(current.song, 0, now)
                &&& r == Ok::<Effects, JukeboxError>(
                    Effects {
                        first: Some(command_for(song_notes(song_index)[0])),
                        second: None,
                        timer: Some(current.piezo_on_deadline),
                    },
                )
                &&& now < current.piezo_on_deadline < current.piezo_off_deadline
            }),
    {
        if self.song.is_some() {
            return Err(JukeboxError::BusyPlaying);
        }
        let song = match song(song_index) {
            Some(song) => song,
            None => {
                return Err(JukeboxError::BadSongIndex);
            },
        };
        let (current, first) = CurrentSong::start(song, now);
        self.song = Some(current);
        let (second, timer) = self.update(now);
        Ok(Effects { first: Some(first), second, timer })
    }
}

} // verus!
