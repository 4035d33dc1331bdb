//! Token lifetimes and the local expiry computation.
use vstd::prelude::*;

verus! {

/// Nanoseconds in one second.
pub const NANOS_PER_SEC: u128 = 1_000_000_000;

/// The largest lifetime a `std::time::Duration` can hold, in nanoseconds.
pub const MAX_NANOS: u128 = 18_446_744_073_709_551_615 * 1_000_000_000 + 999_999_999;

/// A span of time with nanosecond precision, bounded as `std::time::Duration` is.
#[derive(Clone, Copy, Debug, PartialEq, Eq, Structural)]
pub struct Lifetime {
    nanos: u128,
}

impl View for Lifetime {
    type V = int;

    /// The span in nanoseconds. The type invariant keeps `nanos` within the
    /// largest lifetime, so the bound below never cuts anything off.
    closed spec fn view(&self) -> int {
        if self.nanos <= MAX_NANOS {
            self.nanos as int
        } else {
            MAX_NANOS as int
        }
    }
}

/// What a token with `lifetime` reports as remaining once `elapsed` has
/// passed: the largest lifetime if it never expires, else `lifetime - elapsed`
/// floored at zero.
pub open spec fn remaining_spec(never_expiring: bool, lifetime: int, elapsed: int) -> int {
    if never_expiring {
        MAX_NANOS as int
    } else if elapsed <= lifetime {
        lifetime - elapsed
    } else {
        0
    }
}

impl Lifetime {
    #[verifier::type_invariant]
    spec fn bounded(self) -> bool {
        self.nanos <= MAX_NANOS
    }

    /// No span is negative.
    pub proof fn lemma_nonnegative(l: Lifetime)
        ensures
            0 <= l@,
    {
    }

    /// No span exceeds the largest lifetime.
    pub proof fn lemma_bounded(l: Lifetime)
        ensures
            0 <= l@ <= MAX_NANOS,
    {
    }

    /// The empty span.
    pub fn zero() -> (r: Lifetime)
        ensures
            r@ == 0,
    {
        Lifetime { nanos: 0 }
    }

    /// The largest span, reported by tokens that never expire.
    pub fn max_value() -> (r: Lifetime)
        ensures
            r@ == MAX_NANOS,
    {
        Lifetime { nanos: MAX_NANOS }
    }

    /// A span of whole seconds.
    pub fn from_secs(secs: u64) -> (r: Lifetime)
        ensures
            r@ == secs * NANOS_PER_SEC,
    {
        assert(secs * NANOS_PER_SEC <= MAX_NANOS) by (nonlinear_arith)
            requires secs <= 18_446_744_073_709_551_615u64;
        Lifetime { nanos: secs as u128 * NANOS_PER_SEC }
    }

    /// A span of whole seconds and a fraction of a second in nanoseconds.
    pub fn from_parts(secs: u64, subsec_nanos: u32) -> (r: Lifetime)
        requires
            subsec_nanos < NANOS_PER_SEC,
        ensures
            r@ == secs * NANOS_PER_SEC + subsec_nanos,
    {
        assert(secs * NANOS_PER_SEC + subsec_nanos <= MAX_NANOS) by (nonlinear_arith)
            requires
                secs <= 18_446_744_073_709_551_615u64,
                subsec_nanos < NANOS_PER_SEC,
        ;
        Lifetime { nanos: secs as u128 * NANOS_PER_SEC + subsec_nanos as u128 }
    }

    /// The span in nanoseconds.
    pub fn as_nanos(&self) -> (r: u128)
        ensures
            r == self@,
    {
        proof {
            use_type_invariant(self);
        }
        self.nanos
    }

    /// The whole seconds of the span.
    pub fn as_secs(&self) -> (r: u64)
        ensures
            r == self@ / NANOS_PER_SEC as int,
    {
        proof {
            use_type_invariant(self);
        }
        (self.nanos / NANOS_PER_SEC) as u64
    }

    /// The fractional part of the span, in nanoseconds.
    pub fn subsec_nanos(&self) -> (r: u32)
        ensures
            r == self@ % NANOS_PER_SEC as int,
    {
        proof {
            use_type_invariant(self);
        }
        (self.nanos % NANOS_PER_SEC) as u32
    }

    /// `self - other`, or zero where `other` is the longer span.
    pub fn saturating_sub(&self, other: &Lifetime) -> (r: Lifetime)
        ensures
            r@ == if other@ <= self@ { self@ - other@ } else { 0 },
    {
        proof {
            use_type_invariant(self);
        }
        if other.nanos <= self.nanos {
            Lifetime { nanos: self.nanos - other.nanos }
        } else {
            Lifetime { nanos: 0 }
        }
    }

    /// What a token created with this lifetime has left after `elapsed`:
    /// the largest span for a token that never expires, else this lifetime
    /// less `elapsed`, floored at zero.
    pub fn remaining_after(&self, never_expiring: bool, elapsed: &Lifetime) -> (r: Lifetime)
        ensures
            r@ == remaining_spec(never_expiring, self@, elapsed@),
    {
        if never_expiring {
            Lifetime::max_value()
        } else {
            self.saturating_sub(elapsed)
        }
    }
}

/// The moment a token object came into being, read from the monotonic clock.
#[derive(Clone, Copy)]
pub struct CreationInstant {
    at: std::time::Instant,
}

#[verifier::external_type_specification]
#[verifier::external_body]
pub struct ExInstant(std::time::Instant);

/// Relies on `std::time::Instant::now`: the current reading of the monotonic clock.
pub assume_specification[ std::time::Instant::now ]() -> std::time::Instant;

/// Relies on `std::time::Instant::elapsed`: the time since the instant was read.
pub assume_specification[ std::time::Instant::elapsed ](i: &std::time::Instant) -> std::time::Duration;

/// Relies on `std::time::Duration::as_nanos`: the whole span in nanoseconds,
/// which fits a `Lifetime` because a `Duration` holds at most `u64::MAX`
/// seconds and a fraction.
#[verifier::external_body]
fn lifetime_of(d: std::time::Duration) -> (r: Lifetime) {
    Lifetime { nanos: d.as_nanos() }
}

impl CreationInstant {
    /// The current moment.
    pub fn now() -> (r: CreationInstant) {
        CreationInstant { at: std::time::Instant::now() }
    }

    /// The time since this moment.
    pub fn elapsed(&self) -> (r: Lifetime) {
        lifetime_of(self.at.elapsed())
    }
}

} // verus!
