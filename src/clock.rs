use vstd::prelude::*;

use crate::duration::{JsDuration, NANOS_PER_MILLI};
use crate::instant::JsInstant;
use crate::monotonic_time::{next_duration, TimeSlot};

verus! {

/// A source of instants.
///
/// A clock may consult the time slot that the current entry point armed; the
/// two spec functions say when it may be read and what a reading yields.
pub trait Clock {
    /// Whether `now` may be called with this slot.
    spec fn ready(&self, slot: TimeSlot) -> bool;

    /// Whether `r` is a reading that turns slot `before` into slot `after`.
    spec fn reading(&self, before: TimeSlot, after: TimeSlot, r: JsInstant) -> bool;

    /// Reads the clock.
    fn now(&self, slot: &mut TimeSlot) -> (r: JsInstant)
        requires
            self.ready(*old(slot)),
        ensures
            self.reading(*old(slot), *final(slot), r),
    ;
}

/// The deterministic clock: each reading is the next observation of the time
/// slot.
#[derive(Clone, Copy, Debug, Default)]
pub struct StdClock;

impl Clock for StdClock {
    open spec fn ready(&self, slot: TimeSlot) -> bool {
        slot.can_advance()
    }

    open spec fn reading(&self, before: TimeSlot, after: TimeSlot, r: JsInstant) -> bool {
        &&& r@ == before.next_nanos()
        &&& before.advanced(after)
    }

    fn now(&self, slot: &mut TimeSlot) -> (r: JsInstant) {
        let d = next_duration(slot);
        let inner = d.unwrap();
        JsInstant::new_unchecked(inner)
    }
}

/// A clock that stands still until it is moved forward, for tests. It never
/// touches the time slot.
#[derive(Debug, Default)]
pub struct FixedClock {
    millis: u64,
}

impl Clone for FixedClock {
    fn clone(&self) -> (r: FixedClock)
        ensures
            r == *self,
    {
        FixedClock { millis: self.millis }
    }
}

impl FixedClock {
    /// The milliseconds since the epoch that the clock shows.
    pub closed spec fn millis(self) -> u64 {
        self.millis
    }

    /// Creates a clock that shows `millis` milliseconds since the epoch.
    pub fn from_millis(millis: u64) -> (r: FixedClock)
        ensures
            r.millis() == millis,
    {
        FixedClock { millis }
    }

    /// Moves the clock forward by `millis` milliseconds.
    pub fn forward(&mut self, millis: u64)
        requires
            old(self).millis() + millis <= u64::MAX,
        ensures
            final(self).millis() == old(self).millis() + millis,
    {
        self.millis = self.millis + millis;
    }
}

impl Clock for FixedClock {
    open spec fn ready(&self, slot: TimeSlot) -> bool {
        true
    }

    open spec fn reading(&self, before: TimeSlot, after: TimeSlot, r: JsInstant) -> bool {
        &&& r@ == self.millis() as nat * NANOS_PER_MILLI as nat
        &&& after == before
    }

    fn now(&self, slot: &mut TimeSlot) -> (r: JsInstant) {
        let millis = self.millis;
        let secs = millis / 1_000;
        let nanos = ((millis % 1_000) * 1_000_000) as u32;
        proof {
            assert(secs as nat * 1_000_000_000 + nanos as nat == millis as nat * 1_000_000) by (nonlinear_arith)
                requires secs == millis / 1_000, nanos == (millis % 1_000) * 1_000_000;
        }
        JsInstant::new_unchecked(JsDuration::new(secs, nanos))
    }
}

/// Over one armed episode, the slot keeps its base while the count of
/// observations grows by one per reading.
proof fn lemma_episode_state(states: Seq<TimeSlot>, readings: Seq<JsInstant>, i: int)
    requires
        states.len() == readings.len() + 1,
        states[0].bump() + readings.len() <= u64::MAX,
        forall|j: int| 0 <= j < readings.len() ==> #[trigger] StdClock.reading(states[j], states[j + 1], readings[j]),
        0 <= i <= readings.len(),
    ensures
        states[i].base() == states[0].base(),
        states[i].bump() == states[0].bump() + i,
    decreases i,
{
    if i > 0 {
        let k = i - 1;
        lemma_episode_state(states, readings, k);
        assert(StdClock.reading(states[k], states[k + 1], readings[k]));
    }
}

/// Strict monotonicity: within one armed episode, successive readings of the
/// deterministic clock rise by exactly one nanosecond, starting from the
/// instant the slot was due to yield, so every later reading is greater than
/// every earlier one. `states[j]` is the slot before reading `j`; the count of
/// observations must not wrap around during the run.
pub proof fn lemma_readings_strictly_increase(states: Seq<TimeSlot>, readings: Seq<JsInstant>)
    requires
        states.len() == readings.len() + 1,
        states[0].is_armed(),
        states[0].bump() + readings.len() <= u64::MAX,
        forall|j: int| 0 <= j < readings.len() ==> #[trigger] StdClock.reading(states[j], states[j + 1], readings[j]),
    ensures
        forall|j: int| 0 <= j < readings.len() ==> #[trigger] readings[j]@ == states[0].next_nanos() + j,
        forall|j: int| 0 <= j < readings.len() - 1 ==> #[trigger] readings[j + 1]@ == readings[j]@ + 1,
        forall|i: int, j: int| 0 <= i < j < readings.len() ==> readings[i]@ < readings[j]@,
{
    assert forall|j: int| 0 <= j < readings.len() implies #[trigger] readings[j]@ == states[0].next_nanos() + j by {
        lemma_episode_state(states, readings, j);
        assert(StdClock.reading(states[j], states[j + 1], readings[j]));
    }
    assert forall|i: int, j: int| 0 <= i < j < readings.len() implies readings[i]@ < readings[j]@ by {
        assert(readings[i]@ == states[0].next_nanos() + i);
        assert(readings[j]@ == states[0].next_nanos() + j);
    }
    assert forall|j: int| 0 <= j < readings.len() - 1 implies #[trigger] readings[j + 1]@ == readings[j]@ + 1 by {
        assert(readings[j]@ == states[0].next_nanos() + j);
        assert(readings[j + 1]@ == states[0].next_nanos() + j + 1);
    }
}

/// Base anchoring: the first reading of the deterministic clock after
/// `set_time_nanos(n)` is exactly `n` nanoseconds since the epoch.
pub proof fn lemma_first_reading_is_base(n: u128, armed: TimeSlot, after: TimeSlot, r: JsInstant)
    requires
        armed.base() == Some(n),
        armed.bump() == 0,
        StdClock.reading(armed, after, r),
    ensures
        r@ == n,
{
}

/// Re-arming resets: after `set_time_nanos(n1)` and any number of readings,
/// `set_time_nanos(n2)` makes the next reading exactly `n2`, whatever that
/// number was. `states[j]` is the slot before reading `j` of the first episode
/// and `rearmed` the slot after the second publication.
pub proof fn lemma_rearm_resets(
    n1: u128,
    states: Seq<TimeSlot>,
    readings: Seq<JsInstant>,
    n2: u128,
    rearmed: TimeSlot,
    after: TimeSlot,
    r: JsInstant,
)
    requires
        states.len() == readings.len() + 1,
        states[0].base() == Some(n1),
        states[0].bump() == 0,
        forall|j: int| 0 <= j < readings.len() ==> #[trigger] StdClock.reading(states[j], states[j + 1], readings[j]),
        rearmed.base() == Some(n2),
        rearmed.bump() == 0,
        StdClock.reading(rearmed, after, r),
    ensures
        r@ == n2,
{
}

/// Clearing resets: a cleared slot cannot be read, and after `clear_time()`,
/// publishing `n` and reading gives exactly `n`, however many readings the
/// episode before the clear made. `cleared` is the slot after the clear and
/// `armed` the slot after the publication.
pub proof fn lemma_clear_resets(
    cleared: TimeSlot,
    n: u128,
    armed: TimeSlot,
    after: TimeSlot,
    r: JsInstant,
)
    requires
        cleared.base() is None,
        cleared.bump() == 0,
        armed.base() == Some(n),
        armed.bump() == 0,
        StdClock.reading(armed, after, r),
    ensures
        r@ == n,
        !cleared.can_advance(),
{
}

} // verus!
