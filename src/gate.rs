//! Progress towards unlocking: a countdown that runs while the user keeps typing the
//! challenge letter, and a count of letters typed.
//!
//! Times are whole milliseconds on a monotonic clock chosen by the caller.
use vstd::prelude::*;
use crate::chooser::{is_letter, RandomCharacterChooser};

verus! {

/// Since the last correct letter, the span within which the countdown runs.
pub const ACTIVITY_WINDOW_MS: u64 = 3000;

/// Since the last correct letter, the span after which the countdown may grow
/// back.
pub const IDLE_WINDOW_MS: u64 = 10000;

/// What a controller shows after each tick.
#[derive(Clone, Copy, Debug, PartialEq, Eq, Structural)]
pub struct GateSnapshot {
    pub remaining_ms: u64,
    pub typed_count: u64,
    pub required_count: u64,
    pub current_challenge: char,
    pub satisfied: bool,
}

/// A controller's state, the random source aside.
pub struct GateView {
    pub remaining_ms: u64,
    pub required_ms: u64,
    pub typed_count: u64,
    pub required_count: u64,
    pub current_challenge: char,
    pub last_input_at: u64,
    pub reversal_enabled: bool,
    pub satisfied: bool,
}

/// The countdown, the typing count and the challenge that the user is asked for.
pub struct GateController {
    remaining_ms: u64,
    required_ms: u64,
    typed_count: u64,
    required_count: u64,
    current_challenge: char,
    last_input_at: u64,
    reversal_enabled: bool,
    satisfied: bool,
    chooser: RandomCharacterChooser,
}

impl View for GateController {
    type V = GateView;

    closed spec fn view(&self) -> GateView {
        GateView {
            remaining_ms: self.remaining_ms,
            required_ms: self.required_ms,
            typed_count: self.typed_count,
            required_count: self.required_count,
            current_challenge: self.current_challenge,
            last_input_at: self.last_input_at,
            reversal_enabled: self.reversal_enabled,
            satisfied: self.satisfied,
        }
    }
}

/// Time from `from` to `to`, zero when the clock did not move forward.
pub open spec fn elapsed_between(from: u64, to: u64) -> int {
    if to >= from {
        to - from
    } else {
        0
    }
}

/// Both bounds are met: no time left and every letter typed.
pub open spec fn bounds_met(g: GateView) -> bool {
    g.remaining_ms == 0 && g.typed_count == g.required_count
}

/// The countdown after a tick of `elapsed` at `now`: it runs down while the
/// last correct letter is recent, grows back up to the bound after a long
/// pause when reversal is on, and stands still in between or once at zero.
pub open spec fn next_remaining(g: GateView, elapsed: u64, now: u64) -> int {
    let since = elapsed_between(g.last_input_at, now);
    if g.remaining_ms == 0 {
        0
    } else if since < ACTIVITY_WINDOW_MS {
        if g.remaining_ms > elapsed {
            g.remaining_ms - elapsed
        } else {
            0
        }
    } else if since > IDLE_WINDOW_MS && g.reversal_enabled {
        if g.remaining_ms + elapsed < g.required_ms {
            g.remaining_ms + elapsed
        } else {
            g.required_ms as int
        }
    } else {
        g.remaining_ms as int
    }
}

/// A tick counts a letter when the challenge is among the keys pressed and
/// letters are still owed.
pub open spec fn counts_letter(g: GateView, keys: Seq<char>) -> bool {
    keys.contains(g.current_challenge) && g.typed_count < g.required_count
}

/// The configuration is the same in both states.
pub open spec fn same_config(a: GateView, b: GateView) -> bool {
    &&& a.required_ms == b.required_ms
    &&& a.required_count == b.required_count
    &&& a.reversal_enabled == b.reversal_enabled
}

pub open spec fn snapshot_of(g: GateView) -> GateSnapshot {
    GateSnapshot {
        remaining_ms: g.remaining_ms,
        typed_count: g.typed_count,
        required_count: g.required_count,
        current_challenge: g.current_challenge,
        satisfied: g.satisfied,
    }
}

/// Progress stays within the configured bounds, the challenge is a letter,
/// and the controller counts as satisfied once both bounds are met.
pub open spec fn view_wf(g: GateView) -> bool {
    &&& g.remaining_ms <= g.required_ms
    &&& g.typed_count <= g.required_count
    &&& is_letter(g.current_challenge)
    &&& bounds_met(g) ==> g.satisfied
}

/// One tick of `elapsed` ending at `now`, with `keys` pressed, takes the controller
/// from `o` to `f`. A satisfied gate stays as it is.
pub open spec fn tick_step(o: GateView, f: GateView, elapsed: u64, keys: Seq<char>, now: u64) -> bool {
    let hit = counts_letter(o, keys);
    &&& same_config(o, f)
    &&& o.satisfied ==> f == o
    &&& !o.satisfied ==> {
        &&& f.remaining_ms == next_remaining(o, elapsed, now)
        &&& f.typed_count == if hit { o.typed_count + 1 } else { o.typed_count as int }
        &&& f.last_input_at == if hit { now } else { o.last_input_at }
        &&& hit ==> f.current_challenge != o.current_challenge && is_letter(f.current_challenge)
        &&& !hit ==> f.current_challenge == o.current_challenge
        &&& f.satisfied == bounds_met(f)
    }
}

/// Over any run of ticks from a well-formed gate, the countdown stays between
/// zero and its bound and the typing count between zero and its bound.
pub proof fn lemma_ticks_keep_bounds(
    states: Seq<GateView>,
    elapsed: Seq<u64>,
    keys: Seq<Seq<char>>,
    now: Seq<u64>,
)
    requires
        states.len() == elapsed.len() + 1,
        keys.len() == elapsed.len(),
        now.len() == elapsed.len(),
        view_wf(states[0]),
        forall|i: int|
            0 <= i < elapsed.len() ==> #[trigger] tick_step(
                states[i],
                states[i + 1],
                elapsed[i],
                keys[i],
                now[i],
            ),
    ensures
        forall|i: int| 0 <= i < states.len() ==> view_wf(#[trigger] states[i]),
        forall|i: int|
            0 <= i < states.len() ==> (#[trigger] states[i]).remaining_ms <= states[i].required_ms
                && states[i].typed_count <= states[i].required_count,
    decreases elapsed.len(),
{
    if elapsed.len() > 0 {
        let n = elapsed.len() - 1;
        lemma_ticks_keep_bounds(states.drop_last(), elapsed.drop_last(), keys.drop_last(), now.drop_last());
        assert(tick_step(states[n], states[n + 1], elapsed[n], keys[n], now[n]));
        assert(states.drop_last()[n] == states[n]);
        assert forall|i: int| 0 <= i < states.len() implies view_wf(#[trigger] states[i]) by {
            if i < states.len() - 1 {
                assert(states.drop_last()[i] == states[i]);
            }
        }
    }
}

/// Over any run of ticks, a gate once satisfied stays satisfied.
pub proof fn lemma_satisfied_is_sticky(
    states: Seq<GateView>,
    elapsed: Seq<u64>,
    keys: Seq<Seq<char>>,
    now: Seq<u64>,
)
    requires
        states.len() == elapsed.len() + 1,
        keys.len() == elapsed.len(),
        now.len() == elapsed.len(),
        forall|i: int|
            0 <= i < elapsed.len() ==> #[trigger] tick_step(
                states[i],
                states[i + 1],
                elapsed[i],
                keys[i],
                now[i],
            ),
    ensures
        forall|i: int, j: int|
            0 <= i <= j < states.len() && (#[trigger] states[i]).satisfied ==> (#[trigger] states[j]).satisfied,
    decreases elapsed.len(),
{
    if elapsed.len() > 0 {
        let n = elapsed.len() - 1;
        lemma_satisfied_is_sticky(states.drop_last(), elapsed.drop_last(), keys.drop_last(), now.drop_last());
        assert(tick_step(states[n], states[n + 1], elapsed[n], keys[n], now[n]));
        assert forall|i: int, j: int|
            0 <= i <= j < states.len() && (#[trigger] states[i]).satisfied implies (#[trigger] states[j]).satisfied by {
            if i < j {
                assert(states.drop_last()[i] == states[i]);
                if j < states.len() - 1 {
                    assert(states.drop_last()[j] == states[j]);
                } else {
                    assert(states.drop_last()[n] == states[n]);
                }
            }
        }
    }
}

impl GateController {
    pub open spec fn wf(&self) -> bool {
        view_wf(self@)
    }

    /// A fresh gate at time `now`: the full countdown, nothing typed, and a
    /// first challenge drawn from a source seeded with `seed`. A bound of zero
    /// leaves its condition out.
    pub fn new(required_ms: u64, required_count: u64, reversal_enabled: bool, now: u64, seed: u64) -> (r: Self)
        ensures
            r.wf(),
            r@.remaining_ms == required_ms,
            r@.required_ms == required_ms,
            r@.typed_count == 0,
            r@.required_count == required_count,
            r@.last_input_at == now,
            r@.reversal_enabled == reversal_enabled,
            r@.satisfied == (required_ms == 0 && required_count == 0),
    {
        let mut chooser = RandomCharacterChooser::new(seed);
        let current_challenge = chooser.next(None);
        GateController {
            remaining_ms: required_ms,
            required_ms,
            typed_count: 0,
            required_count,
            current_challenge,
            last_input_at: now,
            reversal_enabled,
            satisfied: required_ms == 0 && required_count == 0,
            chooser,
        }
    }

    /// Advances the controller by one frame that took `elapsed` and ended at `now`,
    /// with `key_events` the letters pressed during it. Several presses of the
    /// challenge in one frame count once. A satisfied gate does not change.
    pub fn tick(&mut self, elapsed: u64, key_events: &Vec<char>, now: u64) -> (r: GateSnapshot)
        requires
            old(self).wf(),
        ensures
            final(self).wf(),
            tick_step(old(self)@, final(self)@, elapsed, key_events@, now),
            old(self)@.satisfied ==> final(self)@.satisfied,
            r == snapshot_of(final(self)@),
    {
        if self.satisfied {
            return self.snapshot();
        }
        if self.remaining_ms > 0 {
            let since = if now >= self.last_input_at { now - self.last_input_at } else { 0 };
            if since < ACTIVITY_WINDOW_MS {
                self.remaining_ms = if self.remaining_ms > elapsed { self.remaining_ms - elapsed } else { 0 };
            } else if since > IDLE_WINDOW_MS && self.reversal_enabled {
                self.remaining_ms = if elapsed < self.required_ms - self.remaining_ms {
                    self.remaining_ms + elapsed
                } else {
                    self.required_ms
                };
            }
        }
        if self.typed_count < self.required_count && contains_key(key_events, self.current_challenge) {
            self.typed_count = self.typed_count + 1;
            self.last_input_at = now;
            self.current_challenge = self.chooser.next(Some(self.current_challenge));
        }
        self.satisfied = self.remaining_ms == 0 && self.typed_count == self.required_count;
        self.snapshot()
    }

    /// Sets the countdown bound, lowering the time left to it where it is higher.
    pub fn set_required_time(&mut self, required_ms: u64)
        requires
            old(self).wf(),
        ensures
            final(self).wf(),
            final(self)@.required_ms == required_ms,
            final(self)@.remaining_ms == if old(self)@.remaining_ms > required_ms {
                required_ms
            } else {
                old(self)@.remaining_ms
            },
            final(self)@.typed_count == old(self)@.typed_count,
            final(self)@.required_count == old(self)@.required_count,
            final(self)@.current_challenge == old(self)@.current_challenge,
            final(self)@.last_input_at == old(self)@.last_input_at,
            final(self)@.reversal_enabled == old(self)@.reversal_enabled,
            final(self)@.satisfied == (old(self)@.satisfied || bounds_met(final(self)@)),
    {
        self.required_ms = required_ms;
        if self.remaining_ms > required_ms {
            self.remaining_ms = required_ms;
        }
        self.satisfied = self.satisfied || (self.remaining_ms == 0 && self.typed_count == self.required_count);
    }

    /// Sets the number of letters to type, lowering the count typed to it
    /// where it is higher.
    pub fn set_required_count(&mut self, required_count: u64)
        requires
            old(self).wf(),
        ensures
            final(self).wf(),
            final(self)@.required_count == required_count,
            final(self)@.typed_count == if old(self)@.typed_count > required_count {
                required_count
            } else {
                old(self)@.typed_count
            },
            final(self)@.remaining_ms == old(self)@.remaining_ms,
            final(self)@.required_ms == old(self)@.required_ms,
            final(self)@.current_challenge == old(self)@.current_challenge,
            final(self)@.last_input_at == old(self)@.last_input_at,
            final(self)@.reversal_enabled == old(self)@.reversal_enabled,
            final(self)@.satisfied == (old(self)@.satisfied || bounds_met(final(self)@)),
    {
        self.required_count = required_count;
        if self.typed_count > required_count {
            self.typed_count = required_count;
        }
        self.satisfied = self.satisfied || (self.remaining_ms == 0 && self.typed_count == self.required_count);
    }

    /// Turns growing the countdown back after a long pause on or off.
    pub fn set_reversal_enabled(&mut self, reversal_enabled: bool)
        requires
            old(self).wf(),
        ensures
            final(self).wf(),
            final(self)@ == (GateView { reversal_enabled, ..old(self)@ }),
    {
        self.reversal_enabled = reversal_enabled;
    }

    /// Starts over at `now` under the current configuration: the full
    /// countdown and nothing typed; the challenge stays.
    pub fn reset(&mut self, now: u64)
        requires
            old(self).wf(),
        ensures
            final(self).wf(),
            same_config(old(self)@, final(self)@),
            final(self)@.remaining_ms == old(self)@.required_ms,
            final(self)@.typed_count == 0,
            final(self)@.current_challenge == old(self)@.current_challenge,
            final(self)@.last_input_at == now,
            final(self)@.satisfied == (old(self)@.required_ms == 0 && old(self)@.required_count == 0),
    {
        self.remaining_ms = self.required_ms;
        self.typed_count = 0;
        self.last_input_at = now;
        self.satisfied = self.required_ms == 0 && self.required_count == 0;
    }

    pub fn remaining_ms(&self) -> (r: u64)
        ensures
            r == self@.remaining_ms,
    {
        self.remaining_ms
    }

    pub fn required_ms(&self) -> (r: u64)
        ensures
            r == self@.required_ms,
    {
        self.required_ms
    }

    pub fn typed_count(&self) -> (r: u64)
        ensures
            r == self@.typed_count,
    {
        self.typed_count
    }

    pub fn required_count(&self) -> (r: u64)
        ensures
            r == self@.required_count,
    {
        self.required_count
    }

    pub fn current_challenge(&self) -> (r: char)
        ensures
            r == self@.current_challenge,
    {
        self.current_challenge
    }

    pub fn last_input_at(&self) -> (r: u64)
        ensures
            r == self@.last_input_at,
    {
        self.last_input_at
    }

    pub fn reversal_enabled(&self) -> (r: bool)
        ensures
            r == self@.reversal_enabled,
    {
        self.reversal_enabled
    }

    pub fn is_satisfied(&self) -> (r: bool)
        ensures
            r == self@.satisfied,
    {
        self.satisfied
    }

    /// What the controller shows now.
    pub fn snapshot(&self) -> (r: GateSnapshot)
        ensures
            r == snapshot_of(self@),
    {
        GateSnapshot {
            remaining_ms: self.remaining_ms,
            typed_count: self.typed_count,
            required_count: self.required_count,
            current_challenge: self.current_challenge,
            satisfied: self.satisfied,
        }
    }
}

/// Whether `key` is among `keys`.
pub fn contains_key(keys: &Vec<char>, key: char) -> (r: bool)
    ensures
        r == keys@.contains(key),
{
    let mut i: usize = 0;
    while i < keys.len()
        invariant
            i <= keys@.len(),
            forall|j: int| 0 <= j < i ==> keys@[j] != key,
        decreases keys@.len() - i,
    {
        if keys[i] == key {
            return true;
        }
        i = i + 1;
    }
    false
}

} // verus!
