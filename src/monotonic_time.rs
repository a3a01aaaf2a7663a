use vstd::prelude::*;

use crate::duration::{max_nanos, max_nanos_u128, JsDuration};

verus! {

/// The published block time and the number of observations made since it was
/// published.
///
/// A slot is *armed* while it holds a base time and *empty* otherwise. Each
/// observation of an armed slot yields `base + bump` nanoseconds and then
/// advances `bump` by one, so the instants read within one armed episode rise
/// by exactly one nanosecond each.
#[derive(Debug)]
pub struct TimeSlot {
    base: Option<u128>,
    bump: u64,
}

impl TimeSlot {
    /// The published time, in nanoseconds since the Unix epoch.
    pub closed spec fn base(self) -> Option<u128> {
        self.base
    }

    /// How many observations were made since the time was published.
    pub closed spec fn bump(self) -> u64 {
        self.bump
    }

    /// Whether a time has been published.
    pub open spec fn is_armed(self) -> bool {
        self.base() is Some
    }

    /// The nanoseconds since the epoch that the next observation yields.
    pub open spec fn next_nanos(self) -> nat {
        (self.base().unwrap() + self.bump()) as nat
    }

    /// Whether the next observation can be made: the slot is armed and the
    /// instant it yields lies within the range of a duration.
    pub open spec fn can_advance(self) -> bool {
        self.is_armed() && self.next_nanos() <= max_nanos()
    }

    /// The state after one observation: the same base, `bump` advanced by
    /// one with wrap-around.
    pub open spec fn advanced(self, next: TimeSlot) -> bool {
        &&& next.base() == self.base()
        &&& next.bump() == (if self.bump() == u64::MAX { 0 } else { (self.bump() + 1) as u64 })
    }

    /// Creates an empty slot.
    pub fn new() -> (r: TimeSlot)
        ensures
            r.base() is None,
            r.bump() == 0,
    {
        TimeSlot { base: None, bump: 0 }
    }
}

/// Publishes the block time `nanos`, in nanoseconds since the Unix epoch, and
/// restarts the count of observations.
pub fn set_time_nanos(slot: &mut TimeSlot, nanos: u128)
    ensures
        final(slot).base() == Some(nanos),
        final(slot).bump() == 0,
{
    slot.base = Some(nanos);
    slot.bump = 0;
}

/// Empties the slot, so that no stale time is read after an entry point
/// returns.
pub fn clear_time(slot: &mut TimeSlot)
    ensures
        final(slot).base() is None,
        final(slot).bump() == 0,
{
    slot.base = None;
    slot.bump = 0;
}

/// Makes one observation: returns the duration since the epoch of the next
/// instant and advances the count. Returns `None`, and leaves the slot as it
/// was, where the slot is empty or that instant is out of a duration's range.
pub fn next_duration(slot: &mut TimeSlot) -> (r: Option<JsDuration>)
    ensures
        old(slot).can_advance() ==> {
            &&& r == Some(JsDuration::of_nanos(old(slot).next_nanos()))
            &&& r.unwrap()@ == old(slot).next_nanos()
            &&& old(slot).advanced(*final(slot))
        },
        !old(slot).can_advance() ==> r is None && *final(slot) == *old(slot),
{
    match slot.base {
        None => None,
        Some(base) => {
            let bump = slot.bump;
            if base <= u128::MAX - bump as u128 && base + bump as u128 <= max_nanos_u128() {
                slot.bump = bump.wrapping_add(1);
                Some(JsDuration::from_total_nanos(base + bump as u128))
            } else {
                None
            }
        },
    }
}

} // verus!
