//! Exact fractions.
//!
//! Fitting a virtual resolution into a window divides pixel counts by each
//! other. The results are kept as exact fractions of two integers, so that
//! every bound of the projection can be stated and proved without rounding.

use vstd::prelude::*;
use vstd::std_specs::cmp::PartialEqSpecImpl;

verus! {

/// A fraction of two mathematical integers: the model of a [`Ratio`].
///
/// Two fractions are the same number when [`Frac::eqv`] holds; `==` compares
/// numerator and denominator as written.
pub struct Frac {
    pub num: int,
    pub den: int,
}

impl Frac {
    /// The denominator is positive.
    #[verifier::inline]
    pub open spec fn wf(self) -> bool {
        self.den > 0
    }

    /// The whole number `n`, written `n / 1`.
    #[verifier::inline]
    pub open spec fn of_int(n: int) -> Frac {
        Frac { num: n, den: 1 }
    }

    /// `self` and `o` are the same number.
    #[verifier::inline]
    pub open spec fn eqv(self, o: Frac) -> bool {
        self.num * o.den == o.num * self.den
    }

    /// `self <= o` as numbers (both well-formed).
    #[verifier::inline]
    pub open spec fn le(self, o: Frac) -> bool {
        self.num * o.den <= o.num * self.den
    }

    /// `self < o` as numbers (both well-formed).
    #[verifier::inline]
    pub open spec fn lt(self, o: Frac) -> bool {
        self.num * o.den < o.num * self.den
    }

    /// `self + o`, over the product of the denominators.
    #[verifier::inline]
    pub open spec fn plus(self, o: Frac) -> Frac {
        Frac { num: self.num * o.den + o.num * self.den, den: self.den * o.den }
    }

    /// `self - o`, over the product of the denominators.
    #[verifier::inline]
    pub open spec fn minus(self, o: Frac) -> Frac {
        Frac { num: self.num * o.den - o.num * self.den, den: self.den * o.den }
    }

    /// `self * o`.
    #[verifier::inline]
    pub open spec fn times(self, o: Frac) -> Frac {
        Frac { num: self.num * o.num, den: self.den * o.den }
    }

    /// `self / k` for a positive whole number `k`, over `k` times the
    /// denominator.
    #[verifier::inline]
    pub open spec fn over_int(self, k: int) -> Frac {
        Frac { num: self.num, den: self.den * k }
    }

    /// `self + k` for a whole number `k`, over the same denominator.
    #[verifier::inline]
    pub open spec fn plus_int(self, k: int) -> Frac {
        Frac { num: self.num + k * self.den, den: self.den }
    }

    /// The integer part of a well-formed fraction, rounded toward zero.
    pub open spec fn trunc(self) -> int {
        if self.num >= 0 {
            self.num / self.den
        } else {
            -((-self.num) / self.den)
        }
    }

    /// Numerator and denominator both fit a [`Ratio`].
    #[verifier::inline]
    pub open spec fn representable(self) -> bool {
        &&& i64::MIN <= self.num <= i64::MAX
        &&& 0 < self.den <= i64::MAX
    }
}

/// An exact fraction with a positive denominator.
///
/// The fraction is kept as it was built and is never reduced: `640 / 640` and
/// `1 / 1` are different values that compare equal with `==`.
#[derive(Clone, Copy, Debug)]
pub struct Ratio {
    num: i64,
    den: i64,
}

impl View for Ratio {
    type V = Frac;

    closed spec fn view(&self) -> Frac {
        Frac { num: self.num as int, den: self.den as int }
    }
}

impl Ratio {
    #[verifier::type_invariant]
    spec fn positive_denominator(self) -> bool {
        self.den > 0
    }

    /// The fraction `num / den`, or `None` when `den` is not positive.
    pub fn new(num: i64, den: i64) -> (r: Option<Ratio>)
        ensures
            r is Some <==> den > 0,
            r matches Some(q) ==> q@ == (Frac { num: num as int, den: den as int }),
    {
        if den > 0 {
            Some(Ratio { num, den })
        } else {
            None
        }
    }

    /// The fraction `num / den` for a denominator known to be positive.
    pub(crate) fn from_parts(num: i64, den: i64) -> (r: Ratio)
        requires
            den > 0,
        ensures
            r@ == (Frac { num: num as int, den: den as int }),
    {
        Ratio { num, den }
    }

    /// The whole number `n`.
    pub fn from_int(n: i64) -> (r: Ratio)
        ensures
            r@ == Frac::of_int(n as int),
    {
        Ratio { num: n, den: 1 }
    }

    /// The numerator.
    pub fn num(&self) -> (n: i64)
        ensures
            n == self@.num,
    {
        self.num
    }

    /// The denominator, which is positive.
    pub fn den(&self) -> (d: i64)
        ensures
            d == self@.den,
            d > 0,
    {
        proof {
            use_type_invariant(self);
        }
        self.den
    }

    /// The integer part, rounded toward zero.
    pub fn trunc(&self) -> (t: i64)
        ensures
            t == self@.trunc(),
    {
        proof {
            use_type_invariant(self);
        }
        self.num / self.den
    }

    /// `self + k`, or `None` when the new numerator does not fit.
    pub fn checked_add_int(&self, k: i64) -> (r: Option<Ratio>)
        ensures
            r is Some <==> self@.plus_int(k as int).representable(),
            r matches Some(q) ==> q@ == self@.plus_int(k as int),
    {
        proof {
            use_type_invariant(self);
        }
        let (n, d, m): (i128, i128, i128) = (self.num as i128, self.den as i128, k as i128);
        assert(-0x4000_0000_0000_0000_0000_0000_0000_0000 <= m * d
            <= 0x4000_0000_0000_0000_0000_0000_0000_0000) by (nonlinear_arith)
            requires
                -0x8000_0000_0000_0000 <= m <= 0x8000_0000_0000_0000,
                0 <= d <= 0x8000_0000_0000_0000,
        ;
        let sum: i128 = n + m * d;
        if sum < i64::MIN as i128 || sum > i64::MAX as i128 {
            None
        } else {
            Some(Ratio { num: sum as i64, den: self.den })
        }
    }
}

impl PartialEq for Ratio {
    /// Equality of the two numbers, whatever their denominators.
    fn eq(&self, other: &Ratio) -> (r: bool) {
        proof {
            use_type_invariant(self);
            use_type_invariant(other);
        }
        let (a, b, c, d): (i128, i128, i128, i128) = (
            self.num as i128,
            other.den as i128,
            other.num as i128,
            self.den as i128,
        );
        assert(-0x4000_0000_0000_0000_0000_0000_0000_0000 <= a * b
            <= 0x4000_0000_0000_0000_0000_0000_0000_0000) by (nonlinear_arith)
            requires
                -0x8000_0000_0000_0000 <= a <= 0x8000_0000_0000_0000,
                0 <= b <= 0x8000_0000_0000_0000,
        ;
        assert(-0x4000_0000_0000_0000_0000_0000_0000_0000 <= c * d
            <= 0x4000_0000_0000_0000_0000_0000_0000_0000) by (nonlinear_arith)
            requires
                -0x8000_0000_0000_0000 <= c <= 0x8000_0000_0000_0000,
                0 <= d <= 0x8000_0000_0000_0000,
        ;
        a * b == c * d
    }
}

impl PartialEqSpecImpl for Ratio {
    open spec fn obeys_eq_spec() -> bool {
        true
    }

    open spec fn eq_spec(&self, other: &Ratio) -> bool {
        self@.eqv(other@)
    }
}

} // verus!
