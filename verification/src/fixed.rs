//! Saturating decimal fixed-point numbers.
//!
//! Every continuous quantity of the simulation (a coordinate, a speed, a
//! time step) is a [`Fixed`]: a whole number of millionths. Arithmetic never
//! wraps and never fails; a result that leaves the representable range stops
//! at the nearest bound, and a quotient is rounded toward zero.

use vstd::prelude::*;

verus! {

/// Raw units in one whole: a `Fixed` of raw value `SCALE` stands for 1.
pub const SCALE: i64 = 1_000_000;

/// Largest magnitude of a raw value. The range is symmetric, so negation is exact.
pub const LIMIT: i64 = 9_223_372_036_854_775_807;

/// Whether `v` is the raw value of some `Fixed`.
pub open spec fn in_range(v: int) -> bool {
    -LIMIT <= v <= LIMIT
}

/// `v` itself where it is in range, else the bound on the side of `v`.
pub open spec fn saturated(v: int) -> int {
    if v < -LIMIT {
        -(LIMIT as int)
    } else if v > LIMIT {
        LIMIT as int
    } else {
        v
    }
}

/// Absolute value.
pub open spec fn magnitude(v: int) -> int {
    if v < 0 {
        -v
    } else {
        v
    }
}

/// `n / d` rounded toward zero.
pub open spec fn quotient(n: int, d: int) -> int
    recommends
        d != 0,
{
    if (n < 0) == (d < 0) {
        magnitude(n) / magnitude(d)
    } else {
        -(magnitude(n) / magnitude(d))
    }
}

/// Raw value of `a * n / d`, for raw values `a`, `n` and `d`.
pub open spec fn scaled(a: int, n: int, d: int) -> int
    recommends
        d != 0,
{
    saturated(quotient(a * n, d))
}

/// Raw value of the product of the numbers with raw values `a` and `b`.
pub open spec fn product(a: int, b: int) -> int {
    scaled(a, b, SCALE as int)
}

/// Raw value of the whole number `n`.
pub open spec fn whole(n: nat) -> int {
    saturated(n * SCALE)
}

/// The whole number nearest to the number with raw value `v`, halves rounded
/// away from zero, and zero for every negative `v`.
pub open spec fn nearest_whole(v: int) -> nat {
    if v < 0 {
        0
    } else {
        ((v + SCALE / 2) / (SCALE as int)) as nat
    }
}

/// [`nearest_whole`] as far as a `usize` can hold it.
pub open spec fn cell_index(v: int) -> nat {
    if nearest_whole(v) > usize::MAX {
        usize::MAX as nat
    } else {
        nearest_whole(v)
    }
}

/// A fixed-point number with six decimal places.
///
/// Its view is the raw value: the number times [`SCALE`].
#[derive(Clone, Copy, Debug, PartialEq, Eq, Structural)]
pub struct Fixed {
    raw: i64,
}

impl View for Fixed {
    type V = int;

    closed spec fn view(&self) -> int {
        self.raw as int
    }
}

impl Fixed {
    #[verifier::type_invariant]
    pub open spec fn well_formed(self) -> bool {
        in_range(self@)
    }

    /// The number with raw value `raw`; the one value out of range becomes the lower bound.
    pub fn from_raw(raw: i64) -> (r: Fixed)
        ensures
            r@ == saturated(raw as int),
    {
        if raw < -LIMIT {
            Fixed { raw: -LIMIT }
        } else {
            Fixed { raw }
        }
    }

    /// The raw value.
    pub fn raw(self) -> (r: i64)
        ensures
            r == self@,
            in_range(r as int),
    {
        proof {
            use_type_invariant(&self);
        }
        self.raw
    }

    /// The whole number `n`.
    pub fn from_whole(n: usize) -> (r: Fixed)
        ensures
            r@ == whole(n as nat),
    {
        if n as u128 > (LIMIT / SCALE) as u128 {
            assert(n * SCALE > LIMIT) by (nonlinear_arith)
                requires
                    n > LIMIT / SCALE,
            ;
            Fixed { raw: LIMIT }
        } else {
            assert(0 <= n * SCALE <= LIMIT) by (nonlinear_arith)
                requires
                    0 <= n <= LIMIT / SCALE,
            ;
            Fixed { raw: (n as i64) * SCALE }
        }
    }

    /// Brings a wide intermediate result back into range.
    fn saturate(v: i128) -> (r: Fixed)
        ensures
            r@ == saturated(v as int),
    {
        if v < -(LIMIT as i128) {
            Fixed { raw: -LIMIT }
        } else if v > LIMIT as i128 {
            Fixed { raw: LIMIT }
        } else {
            Fixed { raw: v as i64 }
        }
    }

    /// Sum.
    pub fn plus(self, other: Fixed) -> (r: Fixed)
        ensures
            r@ == saturated(self@ + other@),
    {
        Self::saturate(self.raw as i128 + other.raw as i128)
    }

    /// Difference.
    pub fn minus(self, other: Fixed) -> (r: Fixed)
        ensures
            r@ == saturated(self@ - other@),
    {
        Self::saturate(self.raw as i128 - other.raw as i128)
    }

    /// The same magnitude with the opposite sign.
    pub fn negated(self) -> (r: Fixed)
        ensures
            r@ == -self@,
    {
        proof {
            use_type_invariant(&self);
        }
        Fixed { raw: -self.raw }
    }

    /// Half of the number, rounded toward zero.
    pub fn halved(self) -> (r: Fixed)
        ensures
            r@ == quotient(self@, 2),
    {
        proof {
            use_type_invariant(&self);
        }
        if self.raw < 0 {
            Fixed { raw: -((-self.raw) / 2) }
        } else {
            Fixed { raw: self.raw / 2 }
        }
    }

    /// The smaller of the two.
    pub fn min(self, other: Fixed) -> (r: Fixed)
        ensures
            r@ == if self@ <= other@ { self@ } else { other@ },
    {
        if self.raw <= other.raw {
            self
        } else {
            other
        }
    }

    /// The larger of the two.
    pub fn max(self, other: Fixed) -> (r: Fixed)
        ensures
            r@ == if self@ >= other@ { self@ } else { other@ },
    {
        if self.raw >= other.raw {
            self
        } else {
            other
        }
    }

    /// Magnitude of the raw value, widened for intermediate arithmetic.
    fn magnitude_wide(self) -> (m: u128)
        ensures
            m == magnitude(self@),
            m <= LIMIT,
    {
        proof {
            use_type_invariant(&self);
        }
        if self.raw < 0 {
            (-self.raw) as u128
        } else {
            self.raw as u128
        }
    }

    /// `self * num / den`, the division rounded toward zero.
    pub fn scaled_by(self, num: Fixed, den: Fixed) -> (r: Fixed)
        requires
            den@ != 0,
        ensures
            r@ == scaled(self@, num@, den@),
    {
        let a: u128 = self.magnitude_wide();
        let n: u128 = num.magnitude_wide();
        let d: u128 = den.magnitude_wide();
        assert(a * n <= LIMIT * LIMIT) by (nonlinear_arith)
            requires
                0 <= a <= LIMIT,
                0 <= n <= LIMIT,
        ;
        let q: u128 = (a * n) / d;
        let negative: bool = ((self.raw < 0) != (num.raw < 0)) != (den.raw < 0);
        proof {
            lemma_magnitude_of_product(self@, num@);
            assert(q <= a * n) by (nonlinear_arith)
                requires
                    q == (a * n) / (d as int),
                    d >= 1,
                    a * n >= 0,
            ;
        }
        if negative {
            Self::saturate(-(q as i128))
        } else {
            Self::saturate(q as i128)
        }
    }

    /// Product of two fixed-point numbers.
    pub fn times(self, other: Fixed) -> (r: Fixed)
        ensures
            r@ == product(self@, other@),
    {
        self.scaled_by(other, Fixed { raw: SCALE })
    }

    /// The whole number nearest to this one, as far as a `usize` can hold it;
    /// zero for a negative number.
    pub fn to_cell(self) -> (c: usize)
        ensures
            c == cell_index(self@),
    {
        if self.raw < 0 {
            0
        } else {
            let whole: u64 = (self.raw as u64 + (SCALE / 2) as u64) / (SCALE as u64);
            if whole > usize::MAX as u64 {
                usize::MAX
            } else {
                whole as usize
            }
        }
    }
}

/// The magnitude of a product is the product of the magnitudes, and the
/// product is negative exactly when one factor is.
pub proof fn lemma_magnitude_of_product(a: int, b: int)
    ensures
        magnitude(a * b) == magnitude(a) * magnitude(b),
        a * b < 0 <==> (a != 0 && b != 0 && ((a < 0) != (b < 0))),
{
    assert(magnitude(a * b) == magnitude(a) * magnitude(b) && (a * b < 0 <==> (a != 0 && b != 0
        && ((a < 0) != (b < 0))))) by (nonlinear_arith)
        requires
            magnitude(a) == if a < 0 { -a } else { a },
            magnitude(b) == if b < 0 { -b } else { b },
            magnitude(a * b) == if a * b < 0 { -(a * b) } else { a * b },
    ;
}

/// The product with a number that is not negative has the sign of the other
/// factor, or is zero.
pub proof fn lemma_product_keeps_sign(a: int, b: int)
    requires
        b >= 0,
    ensures
        a >= 0 ==> product(a, b) >= 0,
        a <= 0 ==> product(a, b) <= 0,
{
    lemma_magnitude_of_product(a, b);
    assert(a >= 0 ==> a * b >= 0) by (nonlinear_arith)
        requires
            b >= 0,
    ;
    assert(a <= 0 ==> a * b <= 0) by (nonlinear_arith)
        requires
            b >= 0,
    ;
}

} // verus!
