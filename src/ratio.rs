//! Exact non-negative rationals.
use vstd::prelude::*;

verus! {

/// Largest denominator accepted for an input quantity.
pub const MAX_DEN: u128 = 1000000;

/// An exact non-negative rational number `num / den`, not necessarily reduced.
#[derive(Clone, Copy, Debug)]
pub struct Ratio {
    pub num: u128,
    pub den: u128,
}

/// A fraction as a pair (numerator, denominator) of mathematical integers.
pub type Frac = (int, int);

impl View for Ratio {
    type V = Frac;

    open spec fn view(&self) -> Frac {
        (self.num as int, self.den as int)
    }
}

/// `a == b` as rational values.
pub open spec fn frac_eq(a: Frac, b: Frac) -> bool {
    a.0 * b.1 == b.0 * a.1
}

/// `a < b` as rational values (both denominators positive).
pub open spec fn frac_lt(a: Frac, b: Frac) -> bool {
    a.0 * b.1 < b.0 * a.1
}

/// `a` scaled by the fraction `k / d`.
pub open spec fn frac_scale(a: Frac, k: int, d: int) -> Frac {
    (a.0 * k, a.1 * d)
}

impl Ratio {
    /// A ratio is well formed when its denominator is not zero.
    pub open spec fn wf(self) -> bool {
        self.den > 0
    }

    /// A well-formed input value in `[lo, hi]` whose denominator is at most `MAX_DEN`.
    pub open spec fn within(self, lo: int, hi: int) -> bool {
        &&& self.wf()
        &&& self.den <= MAX_DEN
        &&& lo * self.den <= self.num
        &&& self.num <= hi * self.den
    }

    /// The whole number `n`.
    pub fn whole(n: u128) -> (r: Ratio)
        ensures
            r@ == (n as int, 1int),
            r.wf(),
    {
        Ratio { num: n, den: 1 }
    }

    /// The fraction `num / den`.
    pub fn new(num: u128, den: u128) -> (r: Ratio)
        requires
            den > 0,
        ensures
            r@ == (num as int, den as int),
            r.wf(),
    {
        Ratio { num, den }
    }

    /// `self` scaled by the fraction `k / d`, without reducing.
    pub fn scale(self, k: u128, d: u128) -> (r: Ratio)
        requires
            self.num * k <= u128::MAX,
            self.den * d <= u128::MAX,
        ensures
            r@ == frac_scale(self@, k as int, d as int),
    {
        Ratio { num: self.num * k, den: self.den * d }
    }
}

} // verus!
