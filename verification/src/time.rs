//! Time values used by the scheduler and the timer types.
//!
//! Wall-clock readings and spans of time are kept as plain integers so that
//! every computation on them can be specified exactly: an [`Instant`] is a
//! number of nanoseconds since some fixed epoch, a [`Duration`] is a number
//! of whole seconds plus a sub-second nanosecond part.

use vstd::prelude::*;

verus! {

/// Nanoseconds in one second.
pub const NANOS_PER_SEC: u32 = 1_000_000_000;

/// A span of time: whole seconds plus a sub-second part in nanoseconds.
///
/// A well-formed duration keeps the sub-second part below one second, see
/// [`Duration::is_valid`].
#[derive(Clone, Copy, PartialEq, Eq, Structural, Debug, Hash)]
pub struct Duration {
    /// Whole seconds.
    pub secs: u64,
    /// Sub-second part, in nanoseconds.
    pub nanos: u32,
}

impl Duration {
    /// The sub-second part stays below one second.
    pub open spec fn is_valid(self) -> bool {
        self.nanos < NANOS_PER_SEC
    }

    /// The whole span as a number of nanoseconds.
    pub open spec fn spec_as_nanos(self) -> int {
        self.secs * (NANOS_PER_SEC as int) + self.nanos
    }

    /// Create a duration from seconds and a sub-second part.
    pub fn new(secs: u64, nanos: u32) -> (r: Duration)
        requires
            nanos < NANOS_PER_SEC,
        ensures
            r == (Duration { secs, nanos }),
            r.is_valid(),
    {
        Duration { secs, nanos }
    }

    /// Create a duration of a whole number of seconds.
    pub fn from_secs(secs: u64) -> (r: Duration)
        ensures
            r.is_valid(),
            r.spec_as_nanos() == secs * (NANOS_PER_SEC as int),
    {
        Duration { secs, nanos: 0 }
    }

    /// Create a duration from a number of milliseconds.
    pub fn from_millis(millis: u64) -> (r: Duration)
        ensures
            r.is_valid(),
            r.spec_as_nanos() == millis * 1_000_000,
    {
        let secs = millis / 1_000;
        let rem: u64 = millis % 1_000;
        let nanos = (rem * 1_000_000) as u32;
        proof {
            assert(secs * (NANOS_PER_SEC as int) + rem * 1_000_000 == millis * 1_000_000) by (nonlinear_arith)
                requires
                    secs == millis / 1_000,
                    rem == millis % 1_000,
            ;
        }
        Duration { secs, nanos }
    }

    /// Create a duration from a number of nanoseconds.
    pub fn from_nanos(nanos: u64) -> (r: Duration)
        ensures
            r.is_valid(),
            r.spec_as_nanos() == nanos,
    {
        let secs = nanos / (NANOS_PER_SEC as u64);
        let sub = (nanos % (NANOS_PER_SEC as u64)) as u32;
        proof {
            assert(secs * (NANOS_PER_SEC as int) + (nanos as int) % (NANOS_PER_SEC as int) == nanos) by (nonlinear_arith)
                requires
                    secs == nanos / (NANOS_PER_SEC as u64),
            ;
        }
        Duration { secs, nanos: sub }
    }

    /// Whether this duration is no longer than `other`.
    pub fn le(&self, other: &Duration) -> (r: bool)
        requires
            self.is_valid(),
            other.is_valid(),
        ensures
            r == (self.spec_as_nanos() <= other.spec_as_nanos()),
    {
        proof {
            lemma_lex_le(self.secs as int, self.nanos as int, other.secs as int, other.nanos as int);
        }
        if self.secs != other.secs {
            self.secs < other.secs
        } else {
            self.nanos <= other.nanos
        }
    }

    /// Add two durations, reporting overflow of the seconds part as `None`.
    pub fn checked_add(&self, other: &Duration) -> (r: Option<Duration>)
        requires
            self.is_valid(),
            other.is_valid(),
        ensures
            match r {
                Some(sum) => {
                    &&& sum.is_valid()
                    &&& sum.spec_as_nanos() == self.spec_as_nanos() + other.spec_as_nanos()
                },
                None => self.spec_as_nanos() + other.spec_as_nanos() > Duration::spec_max().spec_as_nanos(),
            },
    {
        let mut nanos = self.nanos + other.nanos;
        let carry: u64 = if nanos >= NANOS_PER_SEC {
            nanos = nanos - NANOS_PER_SEC;
            1
        } else {
            0
        };
        match self.secs.checked_add(other.secs) {
            Some(s) => match s.checked_add(carry) {
                Some(secs) => {
                    proof {
                        vstd::arithmetic::mul::lemma_mul_is_distributive_add_other_way(
                            NANOS_PER_SEC as int,
                            self.secs as int,
                            other.secs as int + carry,
                        );
                        vstd::arithmetic::mul::lemma_mul_is_distributive_add_other_way(
                            NANOS_PER_SEC as int,
                            other.secs as int,
                            carry as int,
                        );
                    }
                    Some(Duration { secs, nanos })
                },
                None => {
                    proof {
                        lemma_nanos_bound_by_secs(self.secs as int + other.secs as int + 1, u64::MAX as int);
                    }
                    None
                },
            },
            None => {
                proof {
                    lemma_nanos_bound_by_secs(self.secs as int + other.secs as int, u64::MAX as int);
                }
                None
            },
        }
    }

    /// The largest well-formed duration.
    pub open spec fn spec_max() -> Duration {
        Duration { secs: u64::MAX, nanos: (NANOS_PER_SEC - 1) as u32 }
    }

    /// The largest well-formed duration.
    pub fn max_value() -> (r: Duration)
        ensures
            r == Duration::spec_max(),
    {
        Duration { secs: u64::MAX, nanos: NANOS_PER_SEC - 1 }
    }

    /// Multiply by a small factor, saturating at the largest duration.
    pub fn saturating_mul_small(&self, k: u32) -> (r: Duration)
        requires
            self.is_valid(),
            k <= 16,
        ensures
            r.is_valid(),
            self.spec_as_nanos() * k <= Duration::spec_max().spec_as_nanos() ==> r.spec_as_nanos() == self.spec_as_nanos() * k,
            self.spec_as_nanos() * k > Duration::spec_max().spec_as_nanos() ==> r == Duration::spec_max(),
    {
        proof {
            assert((self.nanos as int) * (k as int) <= (u32::MAX as int) * 16) by (nonlinear_arith)
                requires
                    self.nanos <= u32::MAX,
                    k <= 16,
            ;
        }
        let sub: u64 = (self.nanos as u64) * (k as u64);
        let extra_secs: u64 = sub / (NANOS_PER_SEC as u64);
        let rem: u32 = (sub % (NANOS_PER_SEC as u64)) as u32;
        let secs_opt = self.secs.checked_mul(k as u64);
        match secs_opt {
            Some(s) => match s.checked_add(extra_secs) {
                Some(secs) => {
                    proof {
                        lemma_mul_small_exact(
                            self.secs as int,
                            self.nanos as int,
                            k as int,
                            extra_secs as int,
                            rem as int,
                        );
                    }
                    Duration { secs, nanos: rem }
                },
                None => {
                    proof {
                        lemma_mul_small_overflow(
                            self.secs as int,
                            self.nanos as int,
                            k as int,
                            extra_secs as int,
                        );
                    }
                    Duration { secs: u64::MAX, nanos: NANOS_PER_SEC - 1 }
                },
            },
            None => {
                proof {
                    assert(self.secs * k * (NANOS_PER_SEC as int) > u64::MAX * (NANOS_PER_SEC as int))
                        by (nonlinear_arith)
                        requires
                            self.secs * k > u64::MAX,
                    ;
                    assert((self.secs * (NANOS_PER_SEC as int) + self.nanos) * k
                        == self.secs * k * (NANOS_PER_SEC as int) + self.nanos * k) by (nonlinear_arith);
                }
                Duration { secs: u64::MAX, nanos: NANOS_PER_SEC - 1 }
            },
        }
    }
}

/// Lexicographic comparison of (seconds, sub-second nanoseconds) pairs
/// agrees with comparison of the spans they denote in nanoseconds.
proof fn lemma_lex_le(s1: int, n1: int, s2: int, n2: int)
    by (nonlinear_arith)
    requires
        0 <= n1 < (NANOS_PER_SEC as int),
        0 <= n2 < (NANOS_PER_SEC as int),
        0 <= s1,
        0 <= s2,
    ensures
        (s1 * (NANOS_PER_SEC as int) + n1 <= s2 * (NANOS_PER_SEC as int) + n2) <==> (s1 < s2 || (s1
            == s2 && n1 <= n2)),
{
}

/// A duration of more whole seconds than `bound` exceeds `bound` seconds
/// in nanoseconds too.
proof fn lemma_nanos_bound_by_secs(secs: int, bound: int)
    requires
        secs > bound,
    ensures
        secs * (NANOS_PER_SEC as int) > bound * (NANOS_PER_SEC as int),
{
    vstd::arithmetic::mul::lemma_mul_strict_inequality(bound, secs, NANOS_PER_SEC as int);
}

/// Exactness of the small-factor multiplication when nothing overflows.
proof fn lemma_mul_small_exact(secs: int, nanos: int, k: int, extra: int, rem: int)
    requires
        0 <= secs,
        0 <= nanos,
        0 <= k,
        extra == (nanos * k) / (NANOS_PER_SEC as int),
        rem == (nanos * k) % (NANOS_PER_SEC as int),
    ensures
        (secs * k + extra) * (NANOS_PER_SEC as int) + rem == (secs * (NANOS_PER_SEC as int) + nanos) * k,
        0 <= rem < (NANOS_PER_SEC as int),
{
    let n = NANOS_PER_SEC as int;
    vstd::arithmetic::div_mod::lemma_fundamental_div_mod(nanos * k, n);
    vstd::arithmetic::div_mod::lemma_mod_bound(nanos * k, n);
    assert((secs * k + extra) * n + rem == (secs * n + nanos) * k) by (nonlinear_arith)
        requires
            nanos * k == n * extra + rem,
    ;
}

/// The multiplication overflows the largest duration when the seconds part
/// alone exceeds `u64::MAX`.
proof fn lemma_mul_small_overflow(secs: int, nanos: int, k: int, extra: int)
    requires
        0 <= secs,
        0 <= nanos,
        0 <= k,
        extra == (nanos * k) / (NANOS_PER_SEC as int),
        secs * k + extra > u64::MAX,
    ensures
        (secs * (NANOS_PER_SEC as int) + nanos) * k > Duration::spec_max().spec_as_nanos(),
{
    let n = NANOS_PER_SEC as int;
    vstd::arithmetic::div_mod::lemma_fundamental_div_mod(nanos * k, n);
    vstd::arithmetic::div_mod::lemma_mod_bound(nanos * k, n);
    assert((secs * n + nanos) * k >= (secs * k + extra) * n) by (nonlinear_arith)
        requires
            nanos * k == n * extra + (nanos * k) % n,
            0 <= (nanos * k) % n,
    ;
    vstd::arithmetic::mul::lemma_mul_inequality(u64::MAX as int + 1, secs * k + extra, n);
}

/// A point in time: nanoseconds since a fixed epoch.
#[derive(Clone, Copy, PartialEq, Eq, Structural, Debug, Hash)]
pub struct Instant {
    /// Nanoseconds since the epoch.
    pub nanos: u64,
}

impl Instant {
    /// Whether this instant is no later than `other`.
    pub fn le(&self, other: &Instant) -> (r: bool)
        ensures
            r == (self.nanos <= other.nanos),
    {
        self.nanos <= other.nanos
    }

    /// The instant `d` later than this one, saturating at the largest
    /// representable instant.
    pub open spec fn spec_saturating_add(self, d: Duration) -> Instant {
        if self.nanos + d.spec_as_nanos() <= u64::MAX {
            Instant { nanos: (self.nanos + d.spec_as_nanos()) as u64 }
        } else {
            Instant { nanos: u64::MAX }
        }
    }

    /// The instant `d` later than this one, saturating at the largest
    /// representable instant.
    pub fn saturating_add(&self, d: &Duration) -> (r: Instant)
        requires
            d.is_valid(),
        ensures
            r == self.spec_saturating_add(*d),
            self.nanos + d.spec_as_nanos() <= u64::MAX ==> r.nanos == self.nanos + d.spec_as_nanos(),
            self.nanos + d.spec_as_nanos() > u64::MAX ==> r.nanos == u64::MAX,
    {
        match d.secs.checked_mul(NANOS_PER_SEC as u64) {
            Some(dn) => match dn.checked_add(d.nanos as u64) {
                Some(total) => match self.nanos.checked_add(total) {
                    Some(nanos) => Instant { nanos },
                    None => Instant { nanos: u64::MAX },
                },
                None => Instant { nanos: u64::MAX },
            },
            None => {
                // The seconds part alone exceeds the representable range.
                Instant { nanos: u64::MAX }
            },
        }
    }
}

/// Relies on `std::time::SystemTime::now`: the wall clock now, converted to
/// whole nanoseconds since the Unix epoch (saturating; zero if the clock
/// reads before the epoch). Nothing is promised of the reading.
#[verifier::external_body]
pub fn now() -> (t: Instant)
{
    let since_epoch = std::time::SystemTime::now()
        .duration_since(std::time::UNIX_EPOCH)
        .unwrap_or(std::time::Duration::ZERO);
    let n = since_epoch.as_nanos();
    let max = u64::MAX as u128;
    Instant { nanos: if n > max { u64::MAX } else { n as u64 } }
}

} // verus!
