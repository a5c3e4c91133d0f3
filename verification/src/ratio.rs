//! Exact rational numbers, for physical quantities that are a count times a
//! fixed scale factor.

use core::ops::Mul;
use vstd::prelude::*;
use vstd::std_specs::ops::MulSpecImpl;

verus! {

/// The rational number `num / den`.
///
/// Two ratios are `==` when numerator and denominator agree; ratios that
/// differ there may still be the same number.
#[derive(Debug, Clone, Copy, PartialEq, Eq, Structural)]
pub struct Ratio {
    /// Numerator
    pub num: i64,
    /// Denominator, positive in every ratio that this crate hands out
    pub den: i64,
}

impl Ratio {
    /// The greatest magnitude of the parts of a ratio that can be multiplied
    /// by another such ratio without leaving `i64`.
    pub const LIMIT: i64 = 0x8000_0000;

    /// The denominator is positive.
    pub open spec fn wf(self) -> bool {
        self.den > 0
    }

    /// Well-formed, with both parts small enough to be multiplied.
    pub open spec fn small(self) -> bool {
        &&& -Self::LIMIT <= self.num <= Self::LIMIT
        &&& 0 < self.den <= Self::LIMIT
    }

    /// Both ratios are the same number.
    pub open spec fn same(self, other: Ratio) -> bool {
        self.num * other.den == other.num * self.den
    }

    /// The number is the integer `k`.
    pub open spec fn is_int(self, k: int) -> bool {
        self.num == k * self.den
    }

    /// The product of two ratios: numerator times numerator over denominator
    /// times denominator.
    pub open spec fn product(self, other: Ratio) -> Ratio {
        Ratio { num: (self.num * other.num) as i64, den: (self.den * other.den) as i64 }
    }

    /// The products of the parts fit their fields.
    pub open spec fn fits(self, other: Ratio) -> bool {
        &&& i64::MIN <= self.num * other.num <= i64::MAX
        &&& i64::MIN <= self.den * other.den <= i64::MAX
    }

    /// The product of small ratios is well formed, and holds the exact
    /// products of the parts.
    pub proof fn lemma_product(self, other: Ratio)
        requires
            self.small(),
            other.small(),
        ensures
            self.fits(other),
            self.product(other).wf(),
            self.product(other).num == self.num * other.num,
            self.product(other).den == self.den * other.den,
    {
        assert(-0x4000_0000_0000_0000 <= self.num * other.num <= 0x4000_0000_0000_0000)
            by (nonlinear_arith)
            requires
                -0x8000_0000 <= self.num <= 0x8000_0000,
                -0x8000_0000 <= other.num <= 0x8000_0000,
        ;
        assert(0 < self.den * other.den <= 0x4000_0000_0000_0000) by (nonlinear_arith)
            requires
                0 < self.den <= 0x8000_0000,
                0 < other.den <= 0x8000_0000,
        ;
    }

    /// `count` times this ratio.
    pub open spec fn spec_times(self, count: i16) -> Ratio {
        Ratio { num: (self.num * count) as i64, den: self.den }
    }

    /// `count` times this ratio: the numerator is multiplied, the
    /// denominator is kept. The product has to fit the numerator.
    #[verifier::when_used_as_spec(spec_times)]
    pub fn times(self, count: i16) -> (r: Ratio)
        requires
            i64::MIN <= self.num * count <= i64::MAX,
        ensures
            r == self.spec_times(count),
            r.num == self.num * count,
            r.den == self.den,
    {
        Ratio { num: self.num * (count as i64), den: self.den }
    }
}

impl Mul for Ratio {
    type Output = Ratio;

    fn mul(self, other: Ratio) -> (r: Ratio) {
        Ratio { num: self.num * other.num, den: self.den * other.den }
    }
}

impl MulSpecImpl for Ratio {
    open spec fn obeys_mul_spec() -> bool {
        true
    }

    open spec fn mul_req(self, other: Ratio) -> bool {
        self.fits(other)
    }

    open spec fn mul_spec(self, other: Ratio) -> Ratio {
        self.product(other)
    }
}

} // verus!
