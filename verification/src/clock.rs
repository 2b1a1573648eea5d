use vstd::prelude::*;

verus! {

/// Nanoseconds in one second.
pub const NANOS_PER_SEC: u128 = 1_000_000_000;

/// The longest span that can be held: the largest `std::time::Duration`,
/// `u64::MAX` seconds and 999 999 999 nanoseconds.
pub const SPAN_MAX_NANOS: u128 = 18_446_744_073_709_551_615_999_999_999;

/// A length of time counted in nanoseconds, with the range of
/// `std::time::Duration`.
///
/// Points in time are held as the span that has passed since a fixed origin
/// chosen by the caller (the start of the process), so that the time between
/// two of them is their difference.
#[derive(Clone, Copy, Debug)]
pub struct Span {
    nanos: u128,
}

impl View for Span {
    type V = nat;

    closed spec fn view(&self) -> nat {
        self.nanos as nat
    }
}

impl Span {
    #[verifier::type_invariant]
    spec fn inv(self) -> bool {
        self.nanos <= SPAN_MAX_NANOS
    }

    /// The empty span.
    pub fn zero() -> (r: Span)
        ensures
            r@ == 0,
            r@ <= SPAN_MAX_NANOS,
    {
        Span { nanos: 0 }
    }

    /// The span of `secs` seconds and `subsec_nanos` nanoseconds, given
    /// with fewer than 10^9 nanoseconds (as `Duration::as_secs` and
    /// `Duration::subsec_nanos` split a duration).
    pub fn from_secs_nanos(secs: u64, subsec_nanos: u32) -> (r: Span)
        requires
            subsec_nanos < NANOS_PER_SEC,
        ensures
            r@ == secs * NANOS_PER_SEC + subsec_nanos,
            r@ <= SPAN_MAX_NANOS,
    {
        let n = (secs as u128) * NANOS_PER_SEC + (subsec_nanos as u128);
        Span { nanos: n }
    }

    /// The span of `millis` milliseconds.
    pub fn from_millis(millis: u64) -> (r: Span)
        ensures
            r@ == millis * 1_000_000,
            r@ <= SPAN_MAX_NANOS,
    {
        Span { nanos: (millis as u128) * 1_000_000 }
    }

    /// The whole span in nanoseconds, as `Duration::as_nanos` gives it; it
    /// never exceeds the range of `Duration`.
    pub fn as_nanos(&self) -> (r: u128)
        ensures
            r == self@,
            r <= SPAN_MAX_NANOS,
    {
        proof {
            use_type_invariant(self);
        }
        self.nanos
    }

    /// Whole seconds in the span, as `Duration::as_secs` gives them.
    pub fn as_secs(&self) -> (r: u64)
        ensures
            r == self@ / (NANOS_PER_SEC as nat),
    {
        proof {
            use_type_invariant(self);
        }
        (self.nanos / NANOS_PER_SEC) as u64
    }

    /// The nanoseconds past the whole seconds, as `Duration::subsec_nanos`
    /// gives them.
    pub fn subsec_nanos(&self) -> (r: u32)
        ensures
            r == self@ % (NANOS_PER_SEC as nat),
    {
        (self.nanos % NANOS_PER_SEC) as u32
    }

    /// The sum of two spans; `Duration` addition, which panics past its
    /// range, so the sum must stay within it.
    pub fn add(self, other: Span) -> (r: Span)
        requires
            self@ + other@ <= SPAN_MAX_NANOS,
        ensures
            r@ == self@ + other@,
            r@ <= SPAN_MAX_NANOS,
    {
        Span { nanos: self.nanos + other.nanos }
    }

    /// `self - other`, or zero when `other` is the longer span; this is what
    /// `Instant::duration_since` and `Instant::elapsed` give.
    pub fn saturating_sub(self, other: Span) -> (r: Span)
        ensures
            r@ == (if self@ >= other@ { self@ - other@ } else { 0 }),
            r@ <= SPAN_MAX_NANOS,
    {
        proof {
            use_type_invariant(&self);
        }
        if self.nanos >= other.nanos {
            Span { nanos: self.nanos - other.nanos }
        } else {
            Span { nanos: 0 }
        }
    }

    /// Whether `self` is shorter than `other`.
    pub fn lt(&self, other: &Span) -> (r: bool)
        ensures
            r == (self@ < other@),
    {
        self.nanos < other.nanos
    }
}

} // verus!
