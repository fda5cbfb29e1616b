//! Session parameters and what a key press does to them.
use vstd::prelude::*;
use crate::highlight::{color_name, Color};
use crate::notes::{key_slot, match_note, resolves_to, Key, Note};

verus! {

/// Bounds of the octave offset.
pub const MIN_OCTAVE: i16 = 0;
pub const MAX_OCTAVE: i16 = 5;
/// Upper bound of the note duration, in milliseconds, and its step.
pub const MAX_NOTE_DURATION: u32 = 8000;
pub const DURATION_STEP: u32 = 50;

/// Why a configuration is refused before the session starts.
#[derive(Clone, Copy, Debug, PartialEq, Eq, Structural)]
pub enum ConfigError {
    OctaveOutOfRange,
    NoteDurationOutOfRange,
    UnknownColor,
}

/// What the caller has to do after a key press.
#[derive(Clone, Debug)]
pub enum Action {
    /// Sound the note and mark its key.
    Play(Note),
    /// Leave the session.
    Quit,
    /// Nothing to sound or draw.
    Idle,
}

/// The parameters read by every key press.
pub struct Session {
    octave: i16,
    note_duration: u32,
    mark_duration: u32,
    color: Color,
}

/// The octave offset after one step up.
pub open spec fn octave_raised(o: int) -> int {
    if o < MAX_OCTAVE { o + 1 } else { o }
}

/// The octave offset after one step down.
pub open spec fn octave_lowered(o: int) -> int {
    if o > MIN_OCTAVE { o - 1 } else { o }
}

/// The note duration after one step up: unchanged where a step would pass
/// the bound.
pub open spec fn duration_raised(d: int) -> int {
    if d + DURATION_STEP <= MAX_NOTE_DURATION { d + DURATION_STEP } else { d }
}

/// The note duration after one step down: unchanged where a step would pass
/// zero.
pub open spec fn duration_lowered(d: int) -> int {
    if d >= DURATION_STEP { d - DURATION_STEP } else { d }
}

impl Session {
    /// The octave offset added to each key's own octave.
    pub closed spec fn spec_octave(&self) -> i16 {
        self.octave
    }

    /// How long a note sounds, in milliseconds; 0 lets it run to its end.
    pub closed spec fn spec_note_duration(&self) -> u32 {
        self.note_duration
    }

    /// How long a played key stays marked, in milliseconds.
    pub closed spec fn spec_mark_duration(&self) -> u32 {
        self.mark_duration
    }

    /// The colour of the mark.
    pub closed spec fn spec_color(&self) -> Color {
        self.color
    }

    /// The parameters are within their bounds, seen from outside.
    pub open spec fn valid(&self) -> bool {
        &&& MIN_OCTAVE <= self.spec_octave() <= MAX_OCTAVE
        &&& self.spec_note_duration() <= MAX_NOTE_DURATION
    }

    /// Starts a session, or says which parameter is refused (the first one,
    /// in the order of the arguments).
    pub fn new(octave: i16, note_duration: u32, mark_duration: u32, color: &str) -> (r: Result<
        Session,
        ConfigError,
    >)
        ensures
            !(MIN_OCTAVE <= octave <= MAX_OCTAVE) ==> r == Err::<Session, _>(
                ConfigError::OctaveOutOfRange,
            ),
            MIN_OCTAVE <= octave <= MAX_OCTAVE && note_duration > MAX_NOTE_DURATION ==> r == Err::<
                Session,
                _,
            >(ConfigError::NoteDurationOutOfRange),
            MIN_OCTAVE <= octave <= MAX_OCTAVE && note_duration <= MAX_NOTE_DURATION && (forall|
                c: Color,
            | color@ != color_name(c)) ==> r == Err::<Session, _>(ConfigError::UnknownColor),
            r is Ok <==> MIN_OCTAVE <= octave <= MAX_OCTAVE && note_duration <= MAX_NOTE_DURATION
                && (exists|c: Color| color@ == color_name(c)),
            r matches Ok(s) ==> {
                &&& s.valid()
                &&& s.spec_octave() == octave
                &&& s.spec_note_duration() == note_duration
                &&& s.spec_mark_duration() == mark_duration
                &&& color@ == color_name(s.spec_color())
            },
    {
        if octave < MIN_OCTAVE || octave > MAX_OCTAVE {
            return Err(ConfigError::OctaveOutOfRange);
        }
        if note_duration > MAX_NOTE_DURATION {
            return Err(ConfigError::NoteDurationOutOfRange);
        }
        match Color::from_name(color) {
            Some(c) => Ok(Session { octave, note_duration, mark_duration, color: c }),
            None => Err(ConfigError::UnknownColor),
        }
    }

    /// The octave offset.
    pub fn octave(&self) -> (r: i16)
        ensures
            r == self.spec_octave(),
    {
        self.octave
    }

    /// How long a note sounds, in milliseconds; 0 lets it run to its end.
    pub fn note_duration(&self) -> (r: u32)
        ensures
            r == self.spec_note_duration(),
    {
        self.note_duration
    }

    /// How long a key stays marked, in milliseconds.
    pub fn mark_duration(&self) -> (r: u32)
        ensures
            r == self.spec_mark_duration(),
    {
        self.mark_duration
    }

    /// The colour of the mark.
    pub fn color(&self) -> (r: Color)
        ensures
            r == self.spec_color(),
    {
        self.color
    }

    /// One octave up, if not at the top.
    pub fn octave_up(&mut self)
        requires
            old(self).valid(),
        ensures
            final(self).valid(),
            final(self).spec_octave() == octave_raised(old(self).spec_octave() as int),
            final(self).spec_note_duration() == old(self).spec_note_duration(),
            final(self).spec_mark_duration() == old(self).spec_mark_duration(),
            final(self).spec_color() == old(self).spec_color(),
    {
        if self.octave < MAX_OCTAVE {
            self.octave = self.octave + 1;
        }
    }

    /// One octave down, if not at the bottom.
    pub fn octave_down(&mut self)
        requires
            old(self).valid(),
        ensures
            final(self).valid(),
            final(self).spec_octave() == octave_lowered(old(self).spec_octave() as int),
            final(self).spec_note_duration() == old(self).spec_note_duration(),
            final(self).spec_mark_duration() == old(self).spec_mark_duration(),
            final(self).spec_color() == old(self).spec_color(),
    {
        if self.octave > MIN_OCTAVE {
            self.octave = self.octave - 1;
        }
    }

    /// One step longer notes, if that stays within the bound.
    pub fn duration_up(&mut self)
        requires
            old(self).valid(),
        ensures
            final(self).valid(),
            final(self).spec_note_duration() == duration_raised(
                old(self).spec_note_duration() as int,
            ),
            final(self).spec_octave() == old(self).spec_octave(),
            final(self).spec_mark_duration() == old(self).spec_mark_duration(),
            final(self).spec_color() == old(self).spec_color(),
    {
        if self.note_duration <= MAX_NOTE_DURATION - DURATION_STEP {
            self.note_duration = self.note_duration + DURATION_STEP;
        }
    }

    /// One step shorter notes, if that stays at or above zero.
    pub fn duration_down(&mut self)
        requires
            old(self).valid(),
        ensures
            final(self).valid(),
            final(self).spec_note_duration() == duration_lowered(
                old(self).spec_note_duration() as int,
            ),
            final(self).spec_octave() == old(self).spec_octave(),
            final(self).spec_mark_duration() == old(self).spec_mark_duration(),
            final(self).spec_color() == old(self).spec_color(),
    {
        if self.note_duration >= DURATION_STEP {
            self.note_duration = self.note_duration - DURATION_STEP;
        }
    }
}

/// What a key press owes: for a key bound to a note, that note under the
/// session's offset; for a control key, its adjustment; `Esc` ends the
/// session; anything else changes nothing.
pub open spec fn key_effect(before: Session, after: Session, key: Key, action: Action) -> bool {
    let o = before.spec_octave() as int;
    let d = before.spec_note_duration() as int;
    &&& after.spec_mark_duration() == before.spec_mark_duration()
    &&& after.spec_color() == before.spec_color()
    &&& after.spec_octave() == (if key == Key::Right {
        octave_raised(o)
    } else if key == Key::Left {
        octave_lowered(o)
    } else {
        o
    })
    &&& after.spec_note_duration() == (if key == Key::Up {
        duration_raised(d)
    } else if key == Key::Down {
        duration_lowered(d)
    } else {
        d
    })
    &&& match action {
        Action::Play(n) => key_slot(key) is Some && resolves_to(key, o, n),
        Action::Quit => key == Key::Esc,
        Action::Idle => key_slot(key) is None && key != Key::Esc,
    }
}

impl Session {
    /// Handles one key press: resolves it under the current offset, and
    /// applies it if it is a control key.
    pub fn on_key(&mut self, key: Key) -> (r: Action)
        requires
            old(self).valid(),
        ensures
            final(self).valid(),
            key_effect(*old(self), *final(self), key, r),
    {
        let note = match_note(key, self.octave);
        proof {
            crate::notes::lemma_playable_iff_bound(key, self.octave as int, note);
        }
        if note.is_playable() {
            return Action::Play(note);
        }
        match key {
            Key::Right => self.octave_up(),
            Key::Left => self.octave_down(),
            Key::Up => self.duration_up(),
            Key::Down => self.duration_down(),
            Key::Esc => {
                return Action::Quit;
            },
            _ => {},
        }
        Action::Idle
    }
}

/// Whatever keys are pressed, the octave offset stays within
/// `MIN_OCTAVE..=MAX_OCTAVE` and the note duration within
/// `0..=MAX_NOTE_DURATION`, and the duration changes by one step or not at all.
pub proof fn lemma_key_keeps_bounds(before: Session, after: Session, key: Key, action: Action)
    requires
        before.valid(),
        key_effect(before, after, key, action),
    ensures
        after.valid(),
        after.spec_note_duration() == before.spec_note_duration()
            || after.spec_note_duration() == before.spec_note_duration() + DURATION_STEP
            || after.spec_note_duration() + DURATION_STEP == before.spec_note_duration(),
        after.spec_octave() == before.spec_octave()
            || after.spec_octave() == before.spec_octave() + 1
            || after.spec_octave() + 1 == before.spec_octave(),
{
}

} // verus!
