use vstd::prelude::*;
use vstd::std_specs::ops::{AddSpec, SubSpec};

use crate::duration::{max_nanos, JsDuration, NANOS_PER_MILLI, NANOS_PER_SEC};

verus! {

/// A point in time, held as the duration elapsed since the Unix epoch.
#[derive(Clone, Copy, Debug, PartialEq, Eq, Structural, Ord, Hash)]
pub struct JsInstant {
    inner: JsDuration,
}

impl View for JsInstant {
    type V = nat;

    /// Nanoseconds since the epoch.
    closed spec fn view(&self) -> nat {
        self.inner@
    }
}

impl JsInstant {
    /// The instant is built from a well-formed duration.
    pub closed spec fn wf(self) -> bool {
        self.inner.wf()
    }

    /// The well-formed instant `n` nanoseconds after the epoch.
    pub closed spec fn of_nanos(n: nat) -> JsInstant {
        JsInstant { inner: JsDuration::of_nanos(n) }
    }

    /// A well-formed instant is fixed by its distance from the epoch.
    pub proof fn lemma_of_view(self)
        requires
            self.wf(),
        ensures
            JsInstant::of_nanos(self@) == self,
            self@ <= max_nanos(),
    {
        self.inner.lemma_of_view();
    }

    /// The instant `n` nanoseconds after the epoch lies at distance `n`.
    pub proof fn lemma_of_nanos(n: nat)
        requires
            n <= max_nanos(),
        ensures
            JsInstant::of_nanos(n).wf(),
            JsInstant::of_nanos(n)@ == n,
    {
        JsDuration::lemma_of_nanos(n);
    }

    /// Creates the instant `secs` seconds and `nanos` nanoseconds after the
    /// epoch.
    pub fn new(secs: u64, nanos: u32) -> (r: JsInstant)
        requires
            nanos < NANOS_PER_SEC,
        ensures
            r@ == secs as nat * NANOS_PER_SEC as nat + nanos as nat,
    {
        let inner = JsDuration::new(secs, nanos);
        JsInstant::new_unchecked(inner)
    }

    /// Creates the instant that lies `inner` after the epoch.
    pub(crate) fn new_unchecked(inner: JsDuration) -> (r: JsInstant)
        ensures
            r@ == inner@,
    {
        JsInstant { inner }
    }

    /// Returns the whole milliseconds since the epoch, keeping the low 64
    /// bits where they do not fit in a `u64`.
    pub fn millis_since_epoch(&self) -> (r: u64)
        ensures
            r as nat == (self@ / NANOS_PER_MILLI as nat) % 0x1_0000_0000_0000_0000,
    {
        self.inner.as_millis()
    }

    /// Returns the nanoseconds since the epoch.
    pub fn nanos_since_epoch(&self) -> (r: u128)
        ensures
            r as nat == self@,
    {
        self.inner.as_nanos()
    }
}

/// Orders by length of time since the epoch, as the derived `Ord` does on
/// well-formed values.
impl PartialOrd for JsInstant {
    fn partial_cmp(&self, other: &JsInstant) -> (r: Option<core::cmp::Ordering>) {
        let a = self.nanos_since_epoch();
        let b = other.nanos_since_epoch();
        if a < b {
            Some(core::cmp::Ordering::Less)
        } else if a > b {
            Some(core::cmp::Ordering::Greater)
        } else {
            Some(core::cmp::Ordering::Equal)
        }
    }
}

impl vstd::std_specs::cmp::PartialOrdSpecImpl for JsInstant {
    open spec fn obeys_partial_cmp_spec() -> bool {
        true
    }

    open spec fn partial_cmp_spec(&self, other: &JsInstant) -> Option<core::cmp::Ordering> {
        if self@ < other@ {
            Some(core::cmp::Ordering::Less)
        } else if self@ > other@ {
            Some(core::cmp::Ordering::Greater)
        } else {
            Some(core::cmp::Ordering::Equal)
        }
    }
}

impl core::ops::Add<JsDuration> for JsInstant {
    type Output = JsInstant;

    fn add(self, rhs: JsDuration) -> (r: JsInstant)
        ensures
            r@ == self@ + rhs@,
    {
        JsInstant { inner: self.inner + rhs }
    }
}

impl vstd::std_specs::ops::AddSpecImpl<JsDuration> for JsInstant {
    open spec fn obeys_add_spec() -> bool {
        true
    }

    open spec fn add_req(self, rhs: JsDuration) -> bool {
        self@ + rhs@ <= max_nanos()
    }

    open spec fn add_spec(self, rhs: JsDuration) -> JsInstant {
        JsInstant::of_nanos(self@ + rhs@)
    }
}

impl core::ops::Sub<JsDuration> for JsInstant {
    type Output = JsInstant;

    fn sub(self, rhs: JsDuration) -> (r: JsInstant)
        ensures
            r@ == self@ - rhs@,
    {
        JsInstant { inner: self.inner - rhs }
    }
}

impl vstd::std_specs::ops::SubSpecImpl<JsDuration> for JsInstant {
    open spec fn obeys_sub_spec() -> bool {
        true
    }

    open spec fn sub_req(self, rhs: JsDuration) -> bool {
        self@ >= rhs@
    }

    open spec fn sub_spec(self, rhs: JsDuration) -> JsInstant {
        JsInstant::of_nanos((self@ - rhs@) as nat)
    }
}

impl core::ops::Sub<JsInstant> for JsInstant {
    type Output = JsDuration;

    fn sub(self, rhs: JsInstant) -> (r: JsDuration)
        ensures
            r@ == self@ - rhs@,
    {
        self.inner - rhs.inner
    }
}

impl vstd::std_specs::ops::SubSpecImpl<JsInstant> for JsInstant {
    open spec fn obeys_sub_spec() -> bool {
        true
    }

    open spec fn sub_req(self, rhs: JsInstant) -> bool {
        self@ >= rhs@
    }

    open spec fn sub_spec(self, rhs: JsInstant) -> JsDuration {
        JsDuration::of_nanos((self@ - rhs@) as nat)
    }
}

/// Adding the distance from `b` to `a` back onto `b` gives `a`.
pub proof fn lemma_add_difference(a: JsInstant, b: JsInstant)
    requires
        a.wf(),
        b.wf(),
        a@ >= b@,
    ensures
        a.sub_req(b),
        b.add_req(a.sub_spec(b)),
        b.add_spec(a.sub_spec(b)) == a,
{
    a.lemma_of_view();
    JsDuration::lemma_of_nanos((a@ - b@) as nat);
}

/// An instant built from seconds and nanoseconds lies `secs * 10^9 + nanos`
/// nanoseconds after the epoch.
pub proof fn lemma_new_nanos(secs: u64, nanos: u32, i: JsInstant, r: u128)
    requires
        nanos < NANOS_PER_SEC,
        i@ == secs as nat * NANOS_PER_SEC as nat + nanos as nat,
        r as nat == i@,
    ensures
        r == secs as nat * NANOS_PER_SEC as nat + nanos as nat,
{
}

} // verus!
