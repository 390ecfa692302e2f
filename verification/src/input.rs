//! Input edge tracking: turning a raw stream of key press/release events into
//! held / released-this-frame semantics usable for chord commands.
//!
//! Per key the tracker is the state machine `Up -> (press) -> Held ->
//! (release) -> Up`, with a transient released-this-frame mark set on the
//! `Held -> Up` transition and cleared at the start of every poll cycle,
//! before that cycle's events are drained. A key therefore reads as released
//! for exactly the one poll cycle in which its release event was observed.

use vstd::prelude::*;
use std::collections::HashSet;

verus! {

broadcast use vstd::std_specs::hash::group_hash_axioms;

/// The abstract state of the tracker: which keys are currently held, and
/// which were released during the current poll cycle.
pub struct KeyState {
    pub held: Set<u32>,
    pub released: Set<u32>,
}

/// One raw input event, as the windowing backend reports it.
pub enum KeyEvent {
    Press(u32),
    Release(u32),
}

/// The state after one event is observed: a press marks the key held, a
/// release unmarks it and sets its released-this-frame pulse.
pub open spec fn apply_event(s: KeyState, e: KeyEvent) -> KeyState {
    match e {
        KeyEvent::Press(k) => KeyState { held: s.held.insert(k), released: s.released },
        KeyEvent::Release(k) => KeyState {
            held: s.held.remove(k),
            released: s.released.insert(k),
        },
    }
}

/// The state after a whole event batch is drained, in order.
pub open spec fn apply_events(s: KeyState, es: Seq<KeyEvent>) -> KeyState
    decreases es.len(),
{
    if es.len() == 0 {
        s
    } else {
        apply_events(apply_event(s, es.first()), es.drop_first())
    }
}

/// The state at the start of a poll cycle: the released pulses of the
/// previous cycle are cleared, held keys stay held.
pub open spec fn start_poll_cycle(s: KeyState) -> KeyState {
    KeyState { held: s.held, released: Set::empty() }
}

/// Converts raw held/not-held key transitions into held and
/// released-this-frame queries.
pub struct KeyTracker {
    held: HashSet<u32>,
    released: HashSet<u32>,
}

impl KeyTracker {
    /// The abstract state this tracker currently holds.
    pub closed spec fn view(&self) -> KeyState {
        KeyState { held: self.held@, released: self.released@ }
    }

    /// A fresh tracker: no key held, no release pending.
    pub fn new() -> (t: KeyTracker)
        ensures
            t@.held == Set::<u32>::empty(),
            t@.released == Set::<u32>::empty(),
    {
        KeyTracker { held: HashSet::new(), released: HashSet::new() }
    }

    /// Start a poll cycle: clear the released-this-frame pulses before the
    /// cycle's events are drained.
    pub fn begin_poll_cycle(&mut self)
        ensures
            final(self)@ == start_poll_cycle(old(self)@),
    {
        self.released.clear();
    }

    /// Observe a press event for `key`.
    pub fn on_press(&mut self, key: u32)
        ensures
            final(self)@ == apply_event(old(self)@, KeyEvent::Press(key)),
    {
        self.held.insert(key);
    }

    /// Observe a release event for `key`.
    pub fn on_release(&mut self, key: u32)
        ensures
            final(self)@ == apply_event(old(self)@, KeyEvent::Release(key)),
    {
        self.held.remove(&key);
        self.released.insert(key);
    }

    /// Whether `key` is currently held.
    pub fn is_held(&self, key: u32) -> (r: bool)
        ensures
            r == self@.held.contains(key),
    {
        self.held.contains(&key)
    }

    /// Whether a release of `key` was observed during the current poll cycle.
    pub fn is_released_this_frame(&self, key: u32) -> (r: bool)
        ensures
            r == self@.released.contains(key),
    {
        self.released.contains(&key)
    }
}

/// After a batch of events, a key reads as released exactly when it read so
/// before the batch or the batch holds a release of it; a press never sets
/// the mark.
pub proof fn lemma_released_after_events(s: KeyState, es: Seq<KeyEvent>, k: u32)
    ensures
        apply_events(s, es).released.contains(k) <==> (s.released.contains(k) || exists|i: int|
            0 <= i < es.len() && es[i] == KeyEvent::Release(k)),
    decreases es.len(),
{
    if es.len() > 0 {
        lemma_released_after_events(apply_event(s, es.first()), es.drop_first(), k);
        if apply_events(s, es).released.contains(k) {
            if !s.released.contains(k) && es.first() != KeyEvent::Release(k) {
                let i = choose|i: int|
                    0 <= i < es.drop_first().len() && es.drop_first()[i] == KeyEvent::Release(k);
                assert(es[i + 1] == KeyEvent::Release(k));
            }
        } else {
            if exists|i: int| 0 <= i < es.len() && es[i] == KeyEvent::Release(k) {
                let i = choose|i: int| 0 <= i < es.len() && es[i] == KeyEvent::Release(k);
                if i > 0 {
                    assert(es.drop_first()[i - 1] == KeyEvent::Release(k));
                }
            }
        }
    }
}

/// One-frame pulse semantics: over a whole poll cycle (pulses cleared, then
/// the cycle's event batch drained), `released` contains a key exactly when
/// that batch holds a release of it. A cycle whose batch has no release of
/// the key reads false, whatever earlier cycles observed; so after a release
/// the key reads as released for that one cycle, then false until the next
/// release.
pub proof fn lemma_release_pulse_lasts_one_cycle(s: KeyState, es: Seq<KeyEvent>, k: u32)
    ensures
        apply_events(start_poll_cycle(s), es).released.contains(k) <==> exists|i: int|
            0 <= i < es.len() && es[i] == KeyEvent::Release(k),
{
    lemma_released_after_events(start_poll_cycle(s), es, k);
}

/// Held keys carry across poll cycles unchanged: clearing the release pulses
/// does not alter which keys are held.
pub proof fn lemma_poll_cycle_keeps_held(s: KeyState)
    ensures
        start_poll_cycle(s).held == s.held,
{
}

} // verus!
