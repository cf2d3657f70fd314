use vstd::prelude::*;

verus! {

/// A non-negative wall-clock time span: whole seconds plus a sub-second
/// remainder in nanoseconds, the remainder always below one second. The
/// conversion engine reads and builds durations at millisecond granularity
/// only; the type itself stores nanoseconds so that no caller-supplied span
/// is coarsened before the engine's own truncation step.
#[derive(Clone, Copy, Debug, PartialEq, Eq, Hash, Structural)]
pub struct Duration {
    secs: u64,
    nanos: u32,
}

impl Duration {
    #[verifier::type_invariant]
    spec fn wf(self) -> bool {
        self.nanos < 1_000_000_000
    }

    /// The whole seconds of the span, as the contracts speak of it.
    pub closed spec fn spec_secs(self) -> u64 {
        self.secs
    }

    /// The sub-second remainder in nanoseconds, as the contracts speak of it.
    pub closed spec fn spec_subsec_nanos(self) -> u32 {
        self.nanos
    }

    /// The whole milliseconds the span contains; anything below one
    /// millisecond is discarded.
    pub open spec fn spec_millis(self) -> int {
        self.spec_secs() * 1000 + self.spec_subsec_nanos() / 1_000_000
    }

    /// The span that [`Duration::from_millis`] builds from `ms` whole
    /// milliseconds. Meaningful for `0 <= ms <= u64::MAX`.
    pub closed spec fn spec_from_millis(ms: int) -> Duration {
        Duration { secs: (ms / 1000) as u64, nanos: ((ms % 1000) * 1_000_000) as u32 }
    }

    /// The zero-length span.
    pub fn zero() -> (r: Duration)
        ensures
            r.spec_secs() == 0,
            r.spec_subsec_nanos() == 0,
            r.spec_millis() == 0,
    {
        Duration { secs: 0, nanos: 0 }
    }

    /// The longest representable span: the largest second count with the
    /// largest sub-second remainder.
    pub fn max_value() -> (r: Duration)
        ensures
            r.spec_secs() == u64::MAX,
            r.spec_subsec_nanos() == 999_999_999,
            r.spec_millis() == u64::MAX * 1000 + 999,
    {
        Duration { secs: u64::MAX, nanos: 999_999_999 }
    }

    /// A span of `secs` whole seconds.
    pub fn from_secs(secs: u64) -> (r: Duration)
        ensures
            r.spec_secs() == secs,
            r.spec_subsec_nanos() == 0,
            r.spec_millis() == secs * 1000,
    {
        Duration { secs, nanos: 0 }
    }

    /// A span of `ms` whole milliseconds.
    pub fn from_millis(ms: u64) -> (r: Duration)
        ensures
            r == Duration::spec_from_millis(ms as int),
            r.spec_millis() == ms,
    {
        proof {
            lemma_from_millis_millis(ms as int);
        }
        Duration { secs: ms / 1000, nanos: (ms % 1000) as u32 * 1_000_000 }
    }

    /// The whole seconds of the span.
    pub fn as_secs(&self) -> (r: u64)
        ensures
            r == self.spec_secs(),
    {
        self.secs
    }

    /// The sub-second remainder of the span, in nanoseconds. Always below
    /// one second.
    pub fn subsec_nanos(&self) -> (r: u32)
        ensures
            r == self.spec_subsec_nanos(),
            r < 1_000_000_000,
    {
        proof {
            use_type_invariant(self);
        }
        self.nanos
    }

    /// The whole milliseconds the span contains. Bounded by the milliseconds
    /// of the longest representable span.
    pub fn as_millis(&self) -> (r: u128)
        ensures
            r == self.spec_millis(),
            r <= u64::MAX * 1000 + 999,
    {
        proof {
            use_type_invariant(self);
            vstd::arithmetic::div_mod::lemma_div_is_ordered(
                self.spec_subsec_nanos() as int,
                999_999_999,
                1_000_000,
            );
        }
        (self.secs as u128) * 1000 + (self.nanos / 1_000_000) as u128
    }
}

/// Building a span from whole milliseconds loses nothing at millisecond
/// granularity: the seconds and the sub-second remainder split the
/// millisecond count exactly, and reading the milliseconds back gives the
/// same number.
pub proof fn lemma_from_millis_millis(ms: int)
    requires
        0 <= ms <= u64::MAX,
    ensures
        Duration::spec_from_millis(ms).spec_secs() == ms / 1000,
        Duration::spec_from_millis(ms).spec_subsec_nanos() == (ms % 1000) * 1_000_000,
        Duration::spec_from_millis(ms).spec_millis() == ms,
        Duration::spec_from_millis(ms).spec_subsec_nanos() < 1_000_000_000,
{
    let d = Duration::spec_from_millis(ms);
    assert(0 <= ms % 1000 < 1000) by {
        vstd::arithmetic::div_mod::lemma_mod_bound(ms, 1000);
    }
    assert(0 <= ms / 1000 <= u64::MAX) by {
        vstd::arithmetic::div_mod::lemma_div_pos_is_pos(ms, 1000);
        vstd::arithmetic::div_mod::lemma_div_nonincreasing(ms, 1000);
    }
    assert(d.spec_subsec_nanos() == (ms % 1000) * 1_000_000);
    assert(d.spec_subsec_nanos() / 1_000_000 == ms % 1000) by {
        vstd::arithmetic::div_mod::lemma_div_multiples_vanish(ms % 1000, 1_000_000);
    }
    assert(d.spec_secs() * 1000 + ms % 1000 == ms) by {
        vstd::arithmetic::div_mod::lemma_fundamental_div_mod(ms, 1000);
    }
}

/// Two spans with the same seconds and the same sub-second remainder are the
/// same span.
pub proof fn lemma_duration_parts(a: Duration, b: Duration)
    requires
        a.spec_secs() == b.spec_secs(),
        a.spec_subsec_nanos() == b.spec_subsec_nanos(),
    ensures
        a == b,
{
}

} // verus!
