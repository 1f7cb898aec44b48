//! The session: the note on show, the options the user picks, and the
//! transitions that manual and automatic advance and option changes make.
//! Time is a clock reading in milliseconds supplied by the caller.
use vstd::prelude::*;
use crate::catalog::{
    convert_note_format, converted, generate_random_note, is_draw_of,
    lemma_draw_is_canonical, lemma_relabel_is_canonical,
};

verus! {

/// Shortest automatic-advance interval, in milliseconds.
pub const MIN_INTERVAL_MS: u64 = 1000;

/// Longest automatic-advance interval, in milliseconds.
pub const MAX_INTERVAL_MS: u64 = 30000;

/// Automatic-advance interval of a new session, in milliseconds.
pub const DEFAULT_INTERVAL_MS: u64 = 5000;

/// The abstract state of a session.
pub struct SessionView {
    pub note: Seq<char>,
    pub allow_sharp: bool,
    pub use_solfege: bool,
    pub timer_enabled: bool,
    pub interval_ms: u64,
    pub last_update_ms: u64,
}

impl SessionView {
    /// The interval lies in its range and the note on show is one of the
    /// seventeen canonical spellings of the active naming system.
    pub open spec fn wf(self) -> bool {
        &&& MIN_INTERVAL_MS <= self.interval_ms <= MAX_INTERVAL_MS
        &&& is_draw_of(self.note, true, self.use_solfege)
    }

    /// Milliseconds since the last advance; a reading before it counts as none.
    pub open spec fn elapsed(self, now_ms: u64) -> int {
        if now_ms >= self.last_update_ms { now_ms - self.last_update_ms } else { 0 }
    }

    /// Whether the automatic advance is due at `now_ms`.
    pub open spec fn timer_due(self, now_ms: u64) -> bool {
        self.timer_enabled && self.elapsed(now_ms) >= self.interval_ms
    }

    /// The same options, everything else free.
    pub open spec fn same_options(self, other: SessionView) -> bool {
        &&& self.allow_sharp == other.allow_sharp
        &&& self.use_solfege == other.use_solfege
        &&& self.timer_enabled == other.timer_enabled
        &&& self.interval_ms == other.interval_ms
    }
}

/// `v` clamped into the interval range.
pub open spec fn clamp_interval(v: u64) -> u64 {
    if v < MIN_INTERVAL_MS {
        MIN_INTERVAL_MS
    } else if v > MAX_INTERVAL_MS {
        MAX_INTERVAL_MS
    } else {
        v
    }
}

/// The note a fresh draw leaves on show: the first draw unless it repeats the
/// current note, and then the second draw, whatever it is.
pub open spec fn resolved_note(current: Seq<char>, first: Seq<char>, second: Seq<char>) -> Seq<char> {
    if first == current { second } else { first }
}

/// Picks the note an advance leaves on show from the current note and two
/// draws; the second draw is used only when the first repeats the current note.
pub fn next_note(current: &String, first: String, second: String) -> (r: String)
    ensures
        r@ == resolved_note(current@, first@, second@),
{
    if first == *current {
        second
    } else {
        first
    }
}

/// An advance leaves the old note on show only when both of its draws gave
/// that note: one repeat at most, never a third draw.
pub proof fn lemma_at_most_one_repeat(current: Seq<char>, first: Seq<char>, second: Seq<char>)
    ensures
        resolved_note(current, first, second) == current ==> first == current && second == current,
        first != current ==> resolved_note(current, first, second) == first,
{
}

/// A running session of the trainer.
pub struct NoteSession {
    current_note: String,
    allow_sharp: bool,
    use_solfege: bool,
    timer_enabled: bool,
    timer_interval_ms: u64,
    last_update_ms: u64,
}

impl View for NoteSession {
    type V = SessionView;

    closed spec fn view(&self) -> SessionView {
        SessionView {
            note: self.current_note@,
            allow_sharp: self.allow_sharp,
            use_solfege: self.use_solfege,
            timer_enabled: self.timer_enabled,
            interval_ms: self.timer_interval_ms,
            last_update_ms: self.last_update_ms,
        }
    }
}

impl NoteSession {
    /// Starts a session at clock reading `now_ms`: natural notes only,
    /// syllable names, no automatic advance, and a freshly drawn note.
    pub fn new(now_ms: u64) -> (s: Self)
        ensures
            s@.wf(),
            !s@.allow_sharp,
            s@.use_solfege,
            !s@.timer_enabled,
            s@.interval_ms == DEFAULT_INTERVAL_MS,
            s@.last_update_ms == now_ms,
            is_draw_of(s@.note, false, true),
    {
        let note = generate_random_note(false, true);
        proof {
            lemma_draw_is_canonical(note@, false, true);
        }
        NoteSession {
            current_note: note,
            allow_sharp: false,
            use_solfege: true,
            timer_enabled: false,
            timer_interval_ms: DEFAULT_INTERVAL_MS,
            last_update_ms: now_ms,
        }
    }

    /// Replaces the note with a fresh draw under the current options, drawing
    /// once more only when the first draw repeats the note on show, and
    /// restarts the automatic-advance countdown at `now_ms`.
    pub fn advance(&mut self, now_ms: u64)
        requires
            old(self)@.wf(),
        ensures
            final(self)@.wf(),
            final(self)@.same_options(old(self)@),
            is_draw_of(final(self)@.note, old(self)@.allow_sharp, old(self)@.use_solfege),
            final(self)@.note.len() > 0,
            final(self)@.last_update_ms == now_ms,
    {
        let first = generate_random_note(self.allow_sharp, self.use_solfege);
        // The second draw is made only on a repeat; otherwise it goes unused.
        let second = if first == self.current_note {
            generate_random_note(self.allow_sharp, self.use_solfege)
        } else {
            first.clone()
        };
        self.current_note = next_note(&self.current_note, first, second);
        self.last_update_ms = now_ms;
        proof {
            lemma_draw_is_canonical(self.current_note@, self.allow_sharp, self.use_solfege);
        }
    }

    /// The periodic check at clock reading `now_ms`. While the automatic
    /// advance is on, it advances exactly when the interval has run out since
    /// the last advance; while it is off, the countdown is held at its start.
    /// Returns whether it advanced.
    pub fn tick(&mut self, now_ms: u64) -> (fired: bool)
        requires
            old(self)@.wf(),
        ensures
            final(self)@.wf(),
            final(self)@.same_options(old(self)@),
            fired == old(self)@.timer_due(now_ms),
            fired ==> is_draw_of(final(self)@.note, old(self)@.allow_sharp, old(self)@.use_solfege),
            fired ==> final(self)@.last_update_ms == now_ms,
            !fired ==> final(self)@.note == old(self)@.note,
            !fired ==> final(self)@.last_update_ms == (if old(self)@.timer_enabled {
                old(self)@.last_update_ms
            } else {
                now_ms
            }),
    {
        if self.timer_enabled {
            if now_ms >= self.last_update_ms && now_ms - self.last_update_ms >= self.timer_interval_ms {
                self.advance(now_ms);
                true
            } else {
                false
            }
        } else {
            self.last_update_ms = now_ms;
            false
        }
    }

    /// Switches the naming system; the note on show is relabelled, not redrawn.
    pub fn set_use_solfege(&mut self, use_solfege: bool)
        requires
            old(self)@.wf(),
        ensures
            final(self)@.wf(),
            final(self)@.use_solfege == use_solfege,
            final(self)@.allow_sharp == old(self)@.allow_sharp,
            final(self)@.timer_enabled == old(self)@.timer_enabled,
            final(self)@.interval_ms == old(self)@.interval_ms,
            final(self)@.last_update_ms == old(self)@.last_update_ms,
            final(self)@.note == (if use_solfege == old(self)@.use_solfege {
                old(self)@.note
            } else {
                converted(old(self)@.note, use_solfege)
            }),
    {
        if use_solfege != self.use_solfege {
            let note = convert_note_format(self.current_note.as_str(), use_solfege);
            proof {
                lemma_relabel_is_canonical(self.current_note@, self.use_solfege);
            }
            self.current_note = note;
            self.use_solfege = use_solfege;
        }
    }

    /// Includes sharps and flats in later draws, or not; the note on show
    /// stays.
    pub fn set_allow_sharp(&mut self, allow_sharp: bool)
        requires
            old(self)@.wf(),
        ensures
            final(self)@ == (SessionView { allow_sharp, ..old(self)@ }),
    {
        self.allow_sharp = allow_sharp;
    }

    /// Turns the automatic advance on or off.
    pub fn set_timer_enabled(&mut self, timer_enabled: bool)
        requires
            old(self)@.wf(),
        ensures
            final(self)@ == (SessionView { timer_enabled, ..old(self)@ }),
    {
        self.timer_enabled = timer_enabled;
    }

    /// Sets the automatic-advance interval, clamped into its range.
    pub fn set_interval_ms(&mut self, interval_ms: u64)
        requires
            old(self)@.wf(),
        ensures
            final(self)@ == (SessionView { interval_ms: clamp_interval(interval_ms), ..old(self)@ }),
    {
        self.timer_interval_ms = if interval_ms < MIN_INTERVAL_MS {
            MIN_INTERVAL_MS
        } else if interval_ms > MAX_INTERVAL_MS {
            MAX_INTERVAL_MS
        } else {
            interval_ms
        };
    }

    /// Milliseconds left before the automatic advance is due, never below zero.
    pub fn remaining_ms(&self, now_ms: u64) -> (r: u64)
        ensures
            r == (if self@.elapsed(now_ms) >= self@.interval_ms {
                0
            } else {
                self@.interval_ms - self@.elapsed(now_ms)
            }),
    {
        let elapsed: u64 = if now_ms >= self.last_update_ms {
            now_ms - self.last_update_ms
        } else {
            0
        };
        if elapsed >= self.timer_interval_ms {
            0
        } else {
            self.timer_interval_ms - elapsed
        }
    }

    /// The note on show.
    pub fn current_note(&self) -> (r: &str)
        ensures
            r@ == self@.note,
    {
        self.current_note.as_str()
    }

    /// Whether draws include sharps and flats.
    pub fn allow_sharp(&self) -> (r: bool)
        ensures
            r == self@.allow_sharp,
    {
        self.allow_sharp
    }

    /// Whether notes are shown in the syllable system.
    pub fn use_solfege(&self) -> (r: bool)
        ensures
            r == self@.use_solfege,
    {
        self.use_solfege
    }

    /// Whether the automatic advance is on.
    pub fn timer_enabled(&self) -> (r: bool)
        ensures
            r == self@.timer_enabled,
    {
        self.timer_enabled
    }

    /// The automatic-advance interval in milliseconds.
    pub fn interval_ms(&self) -> (r: u64)
        ensures
            r == self@.interval_ms,
    {
        self.timer_interval_ms
    }
}

} // verus!
