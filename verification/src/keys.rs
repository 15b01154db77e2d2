//! Key presses as the state machine reads them, and the one-step memory that
//! recognises a key pressed twice in quick succession.

use crate::clock::{is_within_window, within_window, CHORD_WINDOW_MS};
use vstd::prelude::*;

verus! {

/// The keys that the state machine tells apart. Every key it has no use for
/// is `Other`.
#[derive(Clone, Copy, Debug, PartialEq, Eq, Structural)]
pub enum Key {
    Char(char),
    Enter,
    Esc,
    Backspace,
    Delete,
    Tab,
    BackTab,
    Up,
    Down,
    Other,
}

/// One key press: the key, and whether Control was held.
#[derive(Clone, Copy, Debug, PartialEq, Eq, Structural)]
pub struct KeyPress {
    pub code: Key,
    pub ctrl: bool,
}

impl KeyPress {
    /// The key pressed alone.
    pub fn plain(code: Key) -> (press: KeyPress)
        ensures
            press == (KeyPress { code, ctrl: false }),
    {
        KeyPress { code, ctrl: false }
    }

    /// The key pressed with Control held.
    pub fn with_ctrl(code: Key) -> (press: KeyPress)
        ensures
            press == (KeyPress { code, ctrl: true }),
    {
        KeyPress { code, ctrl: true }
    }
}

/// Memory of the last key that reached a screen's own handler, and of when.
#[derive(Clone, Copy, Debug, PartialEq, Eq, Structural)]
pub struct KeySequenceTracker {
    pub last_key: Option<Key>,
    pub last_key_time: Option<u64>,
}

impl KeySequenceTracker {
    /// A press of `trigger` at `now` completes a chord: the remembered key is
    /// `trigger`, and it was pressed less than a second before `now`.
    pub open spec fn chord(self, trigger: Key, now: u64) -> bool {
        self.last_key == Some(trigger) && within_window(self.last_key_time, now, CHORD_WINDOW_MS)
    }

    /// The memory after a press of `key` at `now`.
    pub open spec fn recorded(key: Key, now: u64) -> KeySequenceTracker {
        KeySequenceTracker { last_key: Some(key), last_key_time: Some(now) }
    }

    /// A tracker that remembers nothing.
    pub fn new() -> (tracker: KeySequenceTracker)
        ensures
            tracker == (KeySequenceTracker { last_key: None, last_key_time: None }),
    {
        KeySequenceTracker { last_key: None, last_key_time: None }
    }

    /// Whether a press of `trigger` at `now` completes a chord.
    pub fn completes_chord(&self, trigger: Key, now: u64) -> (chord: bool)
        ensures
            chord == self.chord(trigger, now),
    {
        match self.last_key {
            Some(key) => key == trigger && is_within_window(
                self.last_key_time,
                now,
                CHORD_WINDOW_MS,
            ),
            None => false,
        }
    }

    /// Remembers a press of `key` at `now`, forgetting the press before it.
    pub fn record(&mut self, key: Key, now: u64)
        ensures
            *final(self) == KeySequenceTracker::recorded(key, now),
    {
        self.last_key = Some(key);
        self.last_key_time = Some(now);
    }
}

/// A chord needs the same key twice: after any other key the next press of
/// `trigger` completes nothing.
pub proof fn lemma_other_key_resets_chord(other: Key, trigger: Key, earlier: u64, now: u64)
    requires
        other != trigger,
    ensures
        !KeySequenceTracker::recorded(other, earlier).chord(trigger, now),
{
}

/// After a press of `trigger`, a second press completes the chord exactly
/// when less than a second has passed.
pub proof fn lemma_chord_window(trigger: Key, earlier: u64, now: u64)
    ensures
        KeySequenceTracker::recorded(trigger, earlier).chord(trigger, now) <==> (now < earlier
            || now - earlier < 1000),
{
}

} // verus!
