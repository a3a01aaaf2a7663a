use vstd::prelude::*;
use vstd::std_specs::ops::{AddSpec, SubSpec};

verus! {

/// Nanoseconds in one second.
pub const NANOS_PER_SEC: u64 = 1_000_000_000;

/// Nanoseconds in one millisecond.
pub const NANOS_PER_MILLI: u64 = 1_000_000;

/// The largest number of nanoseconds a duration can hold: `u64::MAX` whole
/// seconds plus the largest sub-second part.
pub open spec fn max_nanos() -> nat {
    u64::MAX as nat * NANOS_PER_SEC as nat + (NANOS_PER_SEC - 1) as nat
}

/// A non-negative span of time with nanosecond resolution, held as whole
/// seconds and a sub-second part.
#[derive(Clone, Copy, Debug, PartialEq, Eq, Structural, Ord, Hash)]
pub struct JsDuration {
    secs: u64,
    nanos: u32,
}

impl View for JsDuration {
    type V = nat;

    /// The total length in nanoseconds.
    closed spec fn view(&self) -> nat {
        self.secs as nat * NANOS_PER_SEC as nat + self.nanos as nat
    }
}

impl JsDuration {
    /// The sub-second part stays below one second.
    #[verifier::type_invariant]
    pub closed spec fn wf(self) -> bool {
        self.nanos < NANOS_PER_SEC
    }

    /// The well-formed duration of `n` nanoseconds.
    pub closed spec fn of_nanos(n: nat) -> JsDuration {
        JsDuration { secs: (n / NANOS_PER_SEC as nat) as u64, nanos: (n % NANOS_PER_SEC as nat) as u32 }
    }

    /// A well-formed value is fixed by its length.
    pub proof fn lemma_of_view(self)
        requires
            self.wf(),
        ensures
            JsDuration::of_nanos(self@) == self,
            self@ <= max_nanos(),
    {
        let n = self@;
        let s = self.secs as nat;
        let k = self.nanos as nat;
        let b = NANOS_PER_SEC as nat;
        assert(n == s * b + k);
        vstd::arithmetic::div_mod::lemma_fundamental_div_mod_converse(n as int, b as int, s as int, k as int);
        assert(s * b <= u64::MAX as nat * b) by (nonlinear_arith)
            requires s <= u64::MAX as nat;
    }

    /// The duration of `n` nanoseconds has length `n`.
    pub proof fn lemma_of_nanos(n: nat)
        requires
            n <= max_nanos(),
        ensures
            JsDuration::of_nanos(n).wf(),
            JsDuration::of_nanos(n)@ == n,
    {
        let b = NANOS_PER_SEC as nat;
        vstd::arithmetic::div_mod::lemma_fundamental_div_mod(n as int, b as int);
        vstd::arithmetic::div_mod::lemma_div_is_ordered(n as int, max_nanos() as int, b as int);
        vstd::arithmetic::div_mod::lemma_fundamental_div_mod_converse(
            max_nanos() as int, b as int, u64::MAX as int, (b - 1) as int);
    }

    /// Builds the duration of `n` nanoseconds.
    pub(crate) fn from_total_nanos(n: u128) -> (r: JsDuration)
        requires
            n <= max_nanos(),
        ensures
            r == JsDuration::of_nanos(n as nat),
            r@ == n,
    {
        proof {
            JsDuration::lemma_of_nanos(n as nat);
        }
        JsDuration { secs: (n / NANOS_PER_SEC as u128) as u64, nanos: (n % NANOS_PER_SEC as u128) as u32 }
    }

    /// Creates a duration of `secs` seconds and `nanos` nanoseconds.
    pub fn new(secs: u64, nanos: u32) -> (r: JsDuration)
        requires
            nanos < NANOS_PER_SEC,
        ensures
            r@ == secs as nat * NANOS_PER_SEC as nat + nanos as nat,
    {
        JsDuration { secs, nanos }
    }

    /// Creates a duration of `millis` milliseconds.
    pub fn from_millis(millis: u64) -> (r: JsDuration)
        ensures
            r@ == millis as nat * NANOS_PER_MILLI as nat,
    {
        proof {
            assert(millis as nat * NANOS_PER_MILLI as nat <= max_nanos()) by (nonlinear_arith)
                requires millis <= u64::MAX;
        }
        let n: u128 = millis as u128 * NANOS_PER_MILLI as u128;
        JsDuration::from_total_nanos(n)
    }

    /// Returns the total number of whole milliseconds, keeping the low 64
    /// bits where it does not fit in a `u64`.
    pub fn as_millis(&self) -> (r: u64)
        ensures
            r as nat == (self@ / NANOS_PER_MILLI as nat) % 0x1_0000_0000_0000_0000,
    {
        let m: u128 = self.as_nanos() / NANOS_PER_MILLI as u128;
        proof {
            lemma_low_bits(m);
        }
        #[verifier::truncate]
        (m as u64)
    }

    /// Returns the number of whole seconds.
    pub fn as_secs(&self) -> (r: u64)
        ensures
            r as nat == self@ / NANOS_PER_SEC as nat,
    {
        proof {
            use_type_invariant(self);
            vstd::arithmetic::div_mod::lemma_fundamental_div_mod_converse(
                self@ as int, NANOS_PER_SEC as int, self.secs as int, self.nanos as int);
        }
        self.secs
    }

    /// Returns the part of the duration below one second, in nanoseconds.
    pub fn subsec_nanos(&self) -> (r: u32)
        ensures
            r as nat == self@ % NANOS_PER_SEC as nat,
            r < NANOS_PER_SEC,
    {
        proof {
            use_type_invariant(self);
            vstd::arithmetic::div_mod::lemma_fundamental_div_mod_converse(
                self@ as int, NANOS_PER_SEC as int, self.secs as int, self.nanos as int);
        }
        self.nanos
    }

    /// Returns the total number of nanoseconds.
    pub fn as_nanos(&self) -> (r: u128)
        ensures
            r as nat == self@,
            r <= max_nanos(),
    {
        proof {
            use_type_invariant(self);
            self.lemma_of_view();
        }
        self.secs as u128 * NANOS_PER_SEC as u128 + self.nanos as u128
    }

    /// Adds two durations, or returns `None` where the sum is too long to be
    /// held.
    pub fn checked_add(self, rhs: JsDuration) -> (r: Option<JsDuration>)
        ensures
            r == (if self@ + rhs@ <= max_nanos() {
                Some(JsDuration::of_nanos(self@ + rhs@))
            } else {
                None::<JsDuration>
            }),
            r is Some ==> r.unwrap()@ == self@ + rhs@,
    {
        let a = self.as_nanos();
        let b = rhs.as_nanos();
        if a <= max_nanos_u128() - b {
            Some(JsDuration::from_total_nanos(a + b))
        } else {
            None
        }
    }

    /// Subtracts `rhs`, or returns `None` where it is longer than `self`.
    pub fn checked_sub(self, rhs: JsDuration) -> (r: Option<JsDuration>)
        ensures
            r == (if self@ >= rhs@ {
                Some(JsDuration::of_nanos((self@ - rhs@) as nat))
            } else {
                None::<JsDuration>
            }),
            r is Some ==> r.unwrap()@ == self@ - rhs@,
    {
        let a = self.as_nanos();
        let b = rhs.as_nanos();
        if a >= b {
            Some(JsDuration::from_total_nanos(a - b))
        } else {
            None
        }
    }
}

/// Adding `d2` and taking it away again gives back `d1`, where the sum is
/// within range.
pub proof fn lemma_add_sub_round_trip(d1: JsDuration, d2: JsDuration)
    requires
        d1.wf(),
        d2.wf(),
        d1@ + d2@ <= max_nanos(),
    ensures
        d1.add_req(d2),
        d1.add_spec(d2).sub_req(d2),
        d1.add_spec(d2).sub_spec(d2) == d1,
{
    JsDuration::lemma_of_nanos(d1@ + d2@);
    d1.lemma_of_view();
}

/// A duration made from `m` milliseconds reports `m` milliseconds.
pub proof fn lemma_millis_round_trip(m: u64, d: JsDuration)
    requires
        d@ == m as nat * NANOS_PER_MILLI as nat,
    ensures
        (d@ / NANOS_PER_MILLI as nat) % 0x1_0000_0000_0000_0000 == m,
{
    vstd::arithmetic::div_mod::lemma_div_by_multiple(m as int, NANOS_PER_MILLI as int);
    vstd::arithmetic::div_mod::lemma_small_mod(m as nat, 0x1_0000_0000_0000_0000);
}

/// `max_nanos` as a machine integer.
pub(crate) fn max_nanos_u128() -> (r: u128)
    ensures
        r == max_nanos(),
{
    0xffff_ffff_ffff_ffff_u128 * 1_000_000_000 + 999_999_999
}

/// Keeping the low 64 bits of a number is taking it modulo 2^64.
proof fn lemma_low_bits(m: u128)
    ensures
        (m as u64) as nat == m as nat % 0x1_0000_0000_0000_0000,
{
    assert((m as u64) as u128 == m % 0x1_0000_0000_0000_0000) by (bit_vector);
}

/// Orders by length of time since the epoch, as the derived `Ord` does on
/// well-formed values.
impl PartialOrd for JsDuration {
    fn partial_cmp(&self, other: &JsDuration) -> (r: Option<core::cmp::Ordering>) {
        let a = self.as_nanos();
        let b = other.as_nanos();
        if a < b {
            Some(core::cmp::Ordering::Less)
        } else if a > b {
            Some(core::cmp::Ordering::Greater)
        } else {
            Some(core::cmp::Ordering::Equal)
        }
    }
}

impl vstd::std_specs::cmp::PartialOrdSpecImpl for JsDuration {
    open spec fn obeys_partial_cmp_spec() -> bool {
        true
    }

    open spec fn partial_cmp_spec(&self, other: &JsDuration) -> Option<core::cmp::Ordering> {
        if self@ < other@ {
            Some(core::cmp::Ordering::Less)
        } else if self@ > other@ {
            Some(core::cmp::Ordering::Greater)
        } else {
            Some(core::cmp::Ordering::Equal)
        }
    }
}

impl core::ops::Add for JsDuration {
    type Output = JsDuration;

    fn add(self, rhs: JsDuration) -> (r: JsDuration)
        ensures
            r@ == self@ + rhs@,
    {
        let a = self.as_nanos();
        let b = rhs.as_nanos();
        JsDuration::from_total_nanos(a + b)
    }
}

impl vstd::std_specs::ops::AddSpecImpl for JsDuration {
    open spec fn obeys_add_spec() -> bool {
        true
    }

    open spec fn add_req(self, rhs: JsDuration) -> bool {
        self@ + rhs@ <= max_nanos()
    }

    open spec fn add_spec(self, rhs: JsDuration) -> JsDuration {
        JsDuration::of_nanos(self@ + rhs@)
    }
}

impl core::ops::Sub for JsDuration {
    type Output = JsDuration;

    fn sub(self, rhs: JsDuration) -> (r: JsDuration)
        ensures
            r@ == self@ - rhs@,
    {
        let a = self.as_nanos();
        let b = rhs.as_nanos();
        JsDuration::from_total_nanos(a - b)
    }
}

impl vstd::std_specs::ops::SubSpecImpl for JsDuration {
    open spec fn obeys_sub_spec() -> bool {
        true
    }

    open spec fn sub_req(self, rhs: JsDuration) -> bool {
        self@ >= rhs@
    }

    open spec fn sub_spec(self, rhs: JsDuration) -> JsDuration {
        JsDuration::of_nanos((self@ - rhs@) as nat)
    }
}

} // verus!
