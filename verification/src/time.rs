use vstd::prelude::*;

verus! {

/// Nanoseconds in one second.
pub const NANOS_PER_SEC: u128 = 1_000_000_000u128;

/// The longest span that can be held: `u64::MAX` whole seconds and
/// 999_999_999 nanoseconds, the range of a standard duration.
pub const MAX_NANOS: u128 = 18_446_744_073_709_551_615_999_999_999u128;

/// A non-negative length of time, counted in nanoseconds.
///
/// It covers exactly the range of `std::time::Duration`; the arithmetic
/// below reports overflow where the standard type would.
#[derive(Clone, Copy, Debug, PartialEq, Eq, Structural, Hash)]
pub struct Span {
    nanos: u128,
}

impl View for Span {
    type V = nat;

    closed spec fn view(&self) -> nat {
        self.nanos as nat
    }
}

impl Span {
    #[verifier::type_invariant]
    spec fn in_range(self) -> bool {
        self.nanos <= MAX_NANOS
    }

    /// The empty span.
    pub fn zero() -> (r: Span)
        ensures
            r@ == 0,
    {
        Span { nanos: 0 }
    }

    pub fn from_nanos(nanos: u128) -> (r: Span)
        requires
            nanos <= MAX_NANOS,
        ensures
            r@ == nanos,
    {
        Span { nanos }
    }

    pub fn from_secs(secs: u64) -> (r: Span)
        ensures
            r@ == secs * NANOS_PER_SEC,
    {
        assert(secs * NANOS_PER_SEC <= MAX_NANOS) by (nonlinear_arith)
            requires
                secs <= u64::MAX,
        ;
        Span { nanos: secs as u128 * NANOS_PER_SEC }
    }

    pub fn from_millis(millis: u64) -> (r: Span)
        ensures
            r@ == millis * 1_000_000,
    {
        assert(millis * 1_000_000 <= MAX_NANOS) by (nonlinear_arith)
            requires
                millis <= u64::MAX,
        ;
        Span { nanos: millis as u128 * 1_000_000 }
    }

    pub fn from_micros(micros: u64) -> (r: Span)
        ensures
            r@ == micros * 1_000,
    {
        assert(micros * 1_000 <= MAX_NANOS) by (nonlinear_arith)
            requires
                micros <= u64::MAX,
        ;
        Span { nanos: micros as u128 * 1_000 }
    }

    pub fn as_nanos(&self) -> (r: u128)
        ensures
            r == self@,
            r <= MAX_NANOS,
    {
        proof {
            use_type_invariant(self);
        }
        self.nanos
    }

    pub fn as_micros(&self) -> (r: u128)
        ensures
            r == self@ / 1_000,
    {
        self.nanos / 1_000
    }

    pub fn as_millis(&self) -> (r: u128)
        ensures
            r == self@ / 1_000_000,
    {
        self.nanos / 1_000_000
    }

    pub fn as_secs(&self) -> (r: u64)
        ensures
            r == self@ / (NANOS_PER_SEC as nat),
    {
        proof {
            use_type_invariant(self);
        }
        (self.nanos / NANOS_PER_SEC) as u64
    }

    pub fn subsec_nanos(&self) -> (r: u32)
        ensures
            r == self@ % (NANOS_PER_SEC as nat),
    {
        (self.nanos % NANOS_PER_SEC) as u32
    }

    pub fn is_zero(&self) -> (r: bool)
        ensures
            r == (self@ == 0),
    {
        self.nanos == 0
    }

    /// `self < other`.
    pub fn lt(&self, other: &Span) -> (r: bool)
        ensures
            r == (self@ < other@),
    {
        self.nanos < other.nanos
    }

    pub fn checked_add(&self, other: Span) -> (r: Option<Span>)
        ensures
            r matches Some(s) ==> s@ == self@ + other@,
            r is None <==> self@ + other@ > MAX_NANOS,
    {
        proof {
            use_type_invariant(self);
            use_type_invariant(&other);
        }
        if self.nanos <= MAX_NANOS - other.nanos {
            Some(Span { nanos: self.nanos + other.nanos })
        } else {
            None
        }
    }

    pub fn checked_sub(&self, other: Span) -> (r: Option<Span>)
        ensures
            r matches Some(s) ==> s@ == self@ - other@,
            r is None <==> self@ < other@,
    {
        proof {
            use_type_invariant(self);
        }
        if other.nanos <= self.nanos {
            Some(Span { nanos: self.nanos - other.nanos })
        } else {
            None
        }
    }

    pub fn saturating_sub(&self, other: Span) -> (r: Span)
        ensures
            r@ == span_saturating_sub(self@, other@),
            r@ <= MAX_NANOS,
    {
        proof {
            use_type_invariant(self);
        }
        match self.checked_sub(other) {
            Some(s) => s,
            None => Span::zero(),
        }
    }

    pub fn checked_mul(&self, factor: u32) -> (r: Option<Span>)
        ensures
            r matches Some(s) ==> s@ == self@ * factor,
            r is None <==> self@ * factor > MAX_NANOS,
    {
        proof {
            use_type_invariant(self);
        }
        if factor == 0 {
            return Some(Span::zero());
        }
        if self.nanos <= MAX_NANOS / (factor as u128) {
            assert(self.nanos * factor <= MAX_NANOS) by (nonlinear_arith)
                requires
                    self.nanos <= MAX_NANOS / (factor as u128),
                    factor > 0,
            ;
            Some(Span { nanos: self.nanos * (factor as u128) })
        } else {
            assert(self.nanos * factor > MAX_NANOS) by (nonlinear_arith)
                requires
                    self.nanos > MAX_NANOS / (factor as u128),
                    factor > 0,
            ;
            None
        }
    }
}

/// The span of `n` nanoseconds, for `n` up to `MAX_NANOS`.
pub closed spec fn span_of(n: nat) -> Span {
    Span { nanos: n as u128 }
}

pub proof fn lemma_span_of(n: nat)
    requires
        n <= MAX_NANOS,
    ensures
        span_of(n)@ == n,
{
}

/// A span is fixed by its length.
pub proof fn lemma_span_eq(a: Span, b: Span)
    requires
        a@ == b@,
    ensures
        a == b,
{
}

/// `a - b`, or zero where `b` is the larger.
pub open spec fn span_saturating_sub(a: nat, b: nat) -> nat {
    if a >= b {
        (a - b) as nat
    } else {
        0
    }
}

} // verus!
