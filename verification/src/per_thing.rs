//! Fixed-point fractions (parts per hundred, per million, per billion) and the
//! rounding multiplications the marketplace uses for fees, taxes and quorums.
use vstd::prelude::*;
use vstd::arithmetic::div_mod::lemma_hoist_over_denominator;
use vstd::arithmetic::div_mod::lemma_fundamental_div_mod;

verus! {

pub const PERCENT_ACCURACY: u32 = 100;
pub const PERMILL_ACCURACY: u32 = 1_000_000;
pub const PERBILL_ACCURACY: u32 = 1_000_000_000;

/// `x * parts / accuracy`, rounded down.
pub open spec fn mul_floor_spec(x: int, parts: int, accuracy: int) -> int {
    (x * parts) / accuracy
}

/// `x * parts / accuracy`, rounded up.
pub open spec fn mul_ceil_spec(x: int, parts: int, accuracy: int) -> int {
    (x * parts + accuracy - 1) / accuracy
}

proof fn lemma_split_product(x: int, p: int, acc: int, q: int, rem: int)
    requires
        0 < acc,
        0 <= p <= acc,
        x == q * acc + rem,
    ensures
        x * p == rem * p + (q * p) * acc,
{
    assert(x * p == rem * p + (q * p) * acc) by (nonlinear_arith)
        requires
            x == q * acc + rem,
    ;
}

proof fn lemma_bounds(x: int, p: int, acc: int, q: int, rem: int)
    requires
        0 < acc <= PERBILL_ACCURACY,
        0 <= p <= acc,
        0 <= q,
        0 <= rem < acc,
        x == q * acc + rem,
    ensures
        0 <= q * p <= x,
        0 <= rem * p < acc * acc,
        rem * p <= rem * acc,
        rem * p < 1_000_000_000_000_000_000,
{
    assert(acc * acc <= 1_000_000_000_000_000_000) by (nonlinear_arith)
        requires
            0 < acc <= PERBILL_ACCURACY,
    ;
    assert(0 <= q * p <= q * acc) by (nonlinear_arith)
        requires
            0 <= q,
            0 <= p <= acc,
    ;
    assert(0 <= rem * p <= rem * acc) by (nonlinear_arith)
        requires
            0 <= rem,
            0 <= p <= acc,
    ;
    assert(rem * acc < acc * acc) by (nonlinear_arith)
        requires
            0 <= rem < acc,
            0 < acc,
    ;
}

/// Multiplies a 128-bit amount by `parts / accuracy`, rounding down.
pub fn mul_floor_u128(x: u128, parts: u32, accuracy: u32) -> (r: u128)
    requires
        0 < accuracy <= PERBILL_ACCURACY,
        parts <= accuracy,
    ensures
        r == mul_floor_spec(x as int, parts as int, accuracy as int),
        r <= x,
{
    let acc = accuracy as u128;
    let p = parts as u128;
    let q = x / acc;
    let rem = x % acc;
    proof {
        let (xi, ai, pi, qi, ri) = (x as int, acc as int, p as int, q as int, rem as int);
        lemma_fundamental_div_mod(xi, ai);
        assert(xi == qi * ai + ri) by (nonlinear_arith)
            requires
                xi == ai * (xi / ai) + (xi % ai),
                qi == xi / ai,
                ri == xi % ai,
        ;
        lemma_bounds(xi, pi, ai, qi, ri);
        lemma_split_product(xi, pi, ai, qi, ri);
        lemma_hoist_over_denominator(ri * pi, qi * pi, ai as nat);
        assert((ri * pi) / ai <= ri) by (nonlinear_arith)
            requires
                0 <= ri * pi <= ri * ai,
                0 < ai,
        ;
        assert(mul_floor_spec(xi, pi, ai) <= xi) by (nonlinear_arith)
            requires
                0 <= pi <= ai,
                0 <= xi,
                0 < ai,
        ;
    }
    let hi = q * p;
    let lo = (rem * p) / acc;
    hi + lo
}

/// Multiplies a 128-bit amount by `parts / accuracy`, rounding up.
pub fn mul_ceil_u128(x: u128, parts: u32, accuracy: u32) -> (r: u128)
    requires
        0 < accuracy <= PERBILL_ACCURACY,
        parts <= accuracy,
    ensures
        r == mul_ceil_spec(x as int, parts as int, accuracy as int),
        r <= x,
{
    let acc = accuracy as u128;
    let p = parts as u128;
    let q = x / acc;
    let rem = x % acc;
    proof {
        let (xi, ai, pi, qi, ri) = (x as int, acc as int, p as int, q as int, rem as int);
        lemma_fundamental_div_mod(xi, ai);
        assert(xi == qi * ai + ri) by (nonlinear_arith)
            requires
                xi == ai * (xi / ai) + (xi % ai),
                qi == xi / ai,
                ri == xi % ai,
        ;
        lemma_bounds(xi, pi, ai, qi, ri);
        lemma_split_product(xi, pi, ai, qi, ri);
        lemma_hoist_over_denominator(ri * pi + ai - 1, qi * pi, ai as nat);
        assert((ri * pi + ai - 1) / ai <= ri) by (nonlinear_arith)
            requires
                0 <= ri * pi <= ri * ai,
                0 < ai,
                0 <= ri,
        ;
        assert(xi * pi + ai - 1 == (ri * pi + ai - 1) + (qi * pi) * ai);
        assert(xi * pi + ai - 1 < (xi + 1) * ai) by (nonlinear_arith)
            requires
                0 <= pi <= ai,
                0 <= xi,
                0 < ai,
        ;
        assert(mul_ceil_spec(xi, pi, ai) <= xi) by (nonlinear_arith)
            requires
                xi * pi + ai - 1 < (xi + 1) * ai,
                0 <= xi * pi,
                0 < ai,
        ;
    }
    let hi = q * p;
    let lo = (rem * p + (acc - 1)) / acc;
    hi + lo
}

/// Multiplies a 32-bit count by `parts / accuracy`, rounding down.
pub fn mul_floor_u32(x: u32, parts: u32, accuracy: u32) -> (r: u32)
    requires
        0 < accuracy <= PERBILL_ACCURACY,
        parts <= accuracy,
    ensures
        r == mul_floor_spec(x as int, parts as int, accuracy as int),
        r <= x,
{
    let r = mul_floor_u128(x as u128, parts, accuracy);
    r as u32
}

/// A fraction in parts per billion, never above one.
#[derive(Clone, Copy, PartialEq, Eq, Debug)]
pub struct Perbill {
    parts: u32,
}

/// A fraction in parts per million, never above one.
#[derive(Clone, Copy, PartialEq, Eq, Debug)]
pub struct Permill {
    parts: u32,
}

/// A fraction in parts per hundred, never above one.
#[derive(Clone, Copy, PartialEq, Eq, Debug)]
pub struct Percent {
    parts: u8,
}

impl Perbill {
    #[verifier::type_invariant]
    spec fn wf(self) -> bool {
        self.parts <= PERBILL_ACCURACY
    }

    pub closed spec fn value(self) -> nat {
        self.parts as nat
    }

    /// Builds a fraction from parts per billion, saturating at one.
    pub fn from_parts(parts: u32) -> (r: Self)
        ensures
            r.value() == if parts <= PERBILL_ACCURACY { parts as nat } else { PERBILL_ACCURACY as nat },
    {
        if parts <= PERBILL_ACCURACY {
            Perbill { parts }
        } else {
            Perbill { parts: PERBILL_ACCURACY }
        }
    }

    /// Builds a fraction from a whole percentage, saturating at one hundred.
    pub fn from_percent(percent: u32) -> (r: Self)
        ensures
            r.value() == (if percent <= 100 { percent as nat } else { 100 }) * 10_000_000,
    {
        let p = if percent <= 100 { percent } else { 100 };
        Perbill { parts: p * 10_000_000 }
    }

    /// The parts per billion.
    pub fn deconstruct(&self) -> (r: u32)
        ensures
            r == self.value(),
            r <= PERBILL_ACCURACY,
    {
        proof {
            use_type_invariant(self);
        }
        self.parts
    }

    /// `x` times this fraction, rounded down.
    pub fn mul_floor(&self, x: u128) -> (r: u128)
        ensures
            r == mul_floor_spec(x as int, self.value() as int, PERBILL_ACCURACY as int),
            r <= x,
    {
        proof {
            use_type_invariant(self);
        }
        mul_floor_u128(x, self.parts, PERBILL_ACCURACY)
    }

    /// `x` times this fraction, rounded up.
    pub fn mul_ceil(&self, x: u128) -> (r: u128)
        ensures
            r == mul_ceil_spec(x as int, self.value() as int, PERBILL_ACCURACY as int),
            r <= x,
    {
        proof {
            use_type_invariant(self);
        }
        mul_ceil_u128(x, self.parts, PERBILL_ACCURACY)
    }

    /// A 32-bit count times this fraction, rounded down.
    pub fn mul_floor_count(&self, x: u32) -> (r: u32)
        ensures
            r == mul_floor_spec(x as int, self.value() as int, PERBILL_ACCURACY as int),
            r <= x,
    {
        proof {
            use_type_invariant(self);
        }
        mul_floor_u32(x, self.parts, PERBILL_ACCURACY)
    }
}

impl Permill {
    #[verifier::type_invariant]
    spec fn wf(self) -> bool {
        self.parts <= PERMILL_ACCURACY
    }

    pub closed spec fn value(self) -> nat {
        self.parts as nat
    }

    /// Builds a fraction from parts per million, saturating at one.
    pub fn from_parts(parts: u32) -> (r: Self)
        ensures
            r.value() == if parts <= PERMILL_ACCURACY { parts as nat } else { PERMILL_ACCURACY as nat },
    {
        if parts <= PERMILL_ACCURACY {
            Permill { parts }
        } else {
            Permill { parts: PERMILL_ACCURACY }
        }
    }

    /// Builds a fraction from a whole percentage, saturating at one hundred.
    pub fn from_percent(percent: u32) -> (r: Self)
        ensures
            r.value() == (if percent <= 100 { percent as nat } else { 100 }) * 10_000,
    {
        let p = if percent <= 100 { percent } else { 100 };
        Permill { parts: p * 10_000 }
    }

    /// The zero fraction.
    pub fn zero() -> (r: Self)
        ensures
            r.value() == 0,
    {
        Permill { parts: 0 }
    }

    /// The parts per million.
    pub fn deconstruct(&self) -> (r: u32)
        ensures
            r == self.value(),
            r <= PERMILL_ACCURACY,
    {
        proof {
            use_type_invariant(self);
        }
        self.parts
    }

    /// `x` times this fraction, rounded up.
    pub fn mul_ceil(&self, x: u128) -> (r: u128)
        ensures
            r == mul_ceil_spec(x as int, self.value() as int, PERMILL_ACCURACY as int),
            r <= x,
    {
        proof {
            use_type_invariant(self);
        }
        mul_ceil_u128(x, self.parts, PERMILL_ACCURACY)
    }
}

impl Percent {
    #[verifier::type_invariant]
    spec fn wf(self) -> bool {
        self.parts <= 100
    }

    pub closed spec fn value(self) -> nat {
        self.parts as nat
    }

    /// Builds a fraction from a whole percentage, saturating at one hundred.
    pub fn from_percent(percent: u8) -> (r: Self)
        ensures
            r.value() == if percent <= 100 { percent as nat } else { 100 },
    {
        if percent <= 100 {
            Percent { parts: percent }
        } else {
            Percent { parts: 100 }
        }
    }

    /// The whole percentage.
    pub fn deconstruct(&self) -> (r: u8)
        ensures
            r == self.value(),
            r <= 100,
    {
        proof {
            use_type_invariant(self);
        }
        self.parts
    }
}

} // verus!
