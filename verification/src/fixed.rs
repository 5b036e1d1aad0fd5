//! Decimal fixed-point scalars.
//!
//! Every length, angle, speed and time step of the camera model is a
//! [`Fixed`]: a signed count of millionths. All arithmetic saturates at the
//! ends of the representable range and rounds toward zero, so every operation
//! is total and its result is a function of its operands alone.

use vstd::prelude::*;

verus! {

/// Raw units per whole: a [`Fixed`] carries six decimal places.
pub const SCALE: i64 = 1_000_000;

/// The integer `x` brought into the range of `i64`.
pub open spec fn saturate(x: int) -> int {
    if x < i64::MIN {
        i64::MIN as int
    } else if x > i64::MAX {
        i64::MAX as int
    } else {
        x
    }
}

/// The quotient `n / d` rounded toward zero. Zero where `d` is zero.
pub open spec fn quotient_toward_zero(n: int, d: int) -> int {
    if d == 0 {
        0
    } else if n >= 0 && d > 0 {
        n / d
    } else if n >= 0 {
        -(n / (-d))
    } else if d > 0 {
        -((-n) / d)
    } else {
        (-n) / (-d)
    }
}

/// `a * b / c` on raw values: the exact product, divided with rounding toward
/// zero, then saturated. A zero divisor gives the extreme of the product's
/// sign, and zero for a zero product.
pub open spec fn mul_div_raw(a: int, b: int, c: int) -> int {
    if c == 0 {
        if a * b > 0 {
            i64::MAX as int
        } else if a * b < 0 {
            i64::MIN as int
        } else {
            0
        }
    } else {
        saturate(quotient_toward_zero(a * b, c))
    }
}

/// A signed decimal fixed-point number: `micros` millionths.
#[derive(Clone, Copy, Debug, PartialEq, Eq, Structural)]
pub struct Fixed {
    pub micros: i64,
}

impl Fixed {
    /// The number zero.
    pub open spec fn zero() -> Fixed {
        Fixed { micros: 0 }
    }

    /// The number one.
    pub open spec fn one() -> Fixed {
        Fixed { micros: SCALE }
    }

    /// The number with the given raw value, as a specification.
    pub open spec fn raw(micros: int) -> Fixed {
        Fixed { micros: saturate(micros) as i64 }
    }

    /// `self + rhs`, saturated.
    pub open spec fn spec_plus(self, rhs: Fixed) -> Fixed {
        Fixed::raw(self.micros + rhs.micros)
    }

    /// `self - rhs`, saturated.
    pub open spec fn spec_minus(self, rhs: Fixed) -> Fixed {
        Fixed::raw(self.micros - rhs.micros)
    }

    /// `-self`, saturated.
    pub open spec fn spec_negated(self) -> Fixed {
        Fixed::raw(-self.micros)
    }

    /// `self * rhs`, rounded toward zero and saturated.
    pub open spec fn spec_times(self, rhs: Fixed) -> Fixed {
        Fixed::raw(mul_div_raw(self.micros as int, rhs.micros as int, SCALE as int))
    }

    /// `self / rhs`, rounded toward zero and saturated.
    pub open spec fn spec_over(self, rhs: Fixed) -> Fixed {
        Fixed::raw(mul_div_raw(self.micros as int, SCALE as int, rhs.micros as int))
    }

    /// `self * factor / divisor` from the exact product, rounded toward zero
    /// and saturated.
    pub open spec fn spec_mul_div(self, factor: Fixed, divisor: Fixed) -> Fixed {
        Fixed::raw(mul_div_raw(self.micros as int, factor.micros as int, divisor.micros as int))
    }

    /// The mean of `self` and `other`, rounded toward zero.
    pub open spec fn spec_midpoint(self, other: Fixed) -> Fixed {
        Fixed::raw(quotient_toward_zero(self.micros + other.micros, 2))
    }

    /// `low` where `self` is below it, else `high` where `self` is above it,
    /// else `self`.
    pub open spec fn spec_clamp(self, low: Fixed, high: Fixed) -> Fixed {
        if self.micros < low.micros {
            low
        } else if self.micros > high.micros {
            high
        } else {
            self
        }
    }

    /// Whether the number is zero.
    pub open spec fn spec_is_zero(self) -> bool {
        self.micros == 0
    }

    /// The number of `micros` millionths.
    pub fn from_micros(micros: i64) -> (r: Fixed)
        ensures
            r.micros == micros,
    {
        Fixed { micros }
    }

    /// The whole number `units`, saturated.
    pub fn from_units(units: i64) -> (r: Fixed)
        ensures
            r == Fixed::raw(units * SCALE),
    {
        proof {
            lemma_product_fits(units as int, SCALE as int);
        }
        let wide: i128 = (units as i128) * (SCALE as i128);
        Fixed { micros: narrow(wide) }
    }

    /// `self + rhs`, saturated.
    #[verifier::when_used_as_spec(spec_plus)]
    pub fn plus(self, rhs: Fixed) -> (r: Fixed)
        ensures
            r == self.spec_plus(rhs),
    {
        let wide: i128 = (self.micros as i128) + (rhs.micros as i128);
        Fixed { micros: narrow(wide) }
    }

    /// `self - rhs`, saturated.
    #[verifier::when_used_as_spec(spec_minus)]
    pub fn minus(self, rhs: Fixed) -> (r: Fixed)
        ensures
            r == self.spec_minus(rhs),
    {
        let wide: i128 = (self.micros as i128) - (rhs.micros as i128);
        Fixed { micros: narrow(wide) }
    }

    /// `-self`, saturated: the negation of the least value is the greatest.
    #[verifier::when_used_as_spec(spec_negated)]
    pub fn negated(self) -> (r: Fixed)
        ensures
            r == self.spec_negated(),
    {
        let wide: i128 = -(self.micros as i128);
        Fixed { micros: narrow(wide) }
    }

    /// `self * factor / divisor` from the exact product, rounded toward zero
    /// and saturated.
    #[verifier::when_used_as_spec(spec_mul_div)]
    pub fn mul_div(self, factor: Fixed, divisor: Fixed) -> (r: Fixed)
        ensures
            r == self.spec_mul_div(factor, divisor),
    {
        let a: i128 = self.micros as i128;
        let b: i128 = factor.micros as i128;
        let c: i128 = divisor.micros as i128;
        proof {
            lemma_product_fits(a as int, b as int);
        }
        let product: i128 = a * b;
        if c == 0 {
            if product > 0 {
                Fixed { micros: i64::MAX }
            } else if product < 0 {
                Fixed { micros: i64::MIN }
            } else {
                Fixed { micros: 0 }
            }
        } else {
            let numerator: i128 = if product < 0 {
                -product
            } else {
                product
            };
            let denominator: i128 = if c < 0 {
                -c
            } else {
                c
            };
            let magnitude: i128 = numerator / denominator;
            if (product < 0) == (c < 0) {
                Fixed { micros: narrow(magnitude) }
            } else {
                Fixed { micros: narrow(-magnitude) }
            }
        }
    }

    /// `self * rhs`, rounded toward zero and saturated.
    #[verifier::when_used_as_spec(spec_times)]
    pub fn times(self, rhs: Fixed) -> (r: Fixed)
        ensures
            r == self.spec_times(rhs),
    {
        self.mul_div(rhs, Fixed { micros: SCALE })
    }

    /// `self / rhs`, rounded toward zero and saturated. Division by zero
    /// gives the extreme of the sign of `self`, and zero for zero.
    #[verifier::when_used_as_spec(spec_over)]
    pub fn over(self, rhs: Fixed) -> (r: Fixed)
        ensures
            r == self.spec_over(rhs),
    {
        self.mul_div(Fixed { micros: SCALE }, rhs)
    }

    /// The mean of `self` and `other`, rounded toward zero. It never
    /// saturates and lies between the two.
    #[verifier::when_used_as_spec(spec_midpoint)]
    pub fn midpoint(self, other: Fixed) -> (r: Fixed)
        ensures
            r == self.spec_midpoint(other),
            self.micros <= other.micros ==> self.micros <= r.micros <= other.micros,
            other.micros <= self.micros ==> other.micros <= r.micros <= self.micros,
    {
        let wide: i128 = (self.micros as i128) + (other.micros as i128);
        let half: i128 = wide / 2;
        Fixed { micros: narrow(half) }
    }

    /// `low` where `self` is below it, else `high` where `self` is above it,
    /// else `self`.
    #[verifier::when_used_as_spec(spec_clamp)]
    pub fn clamp(self, low: Fixed, high: Fixed) -> (r: Fixed)
        ensures
            r == self.spec_clamp(low, high),
            low.micros <= high.micros ==> low.micros <= r.micros <= high.micros,
    {
        if self.micros < low.micros {
            low
        } else if self.micros > high.micros {
            high
        } else {
            self
        }
    }

    /// Whether the number is zero.
    #[verifier::when_used_as_spec(spec_is_zero)]
    pub fn is_zero(self) -> (r: bool)
        ensures
            r == self.spec_is_zero(),
    {
        self.micros == 0
    }
}

/// A product with a factor of at most one in magnitude is no larger in
/// magnitude than the other factor.
pub proof fn lemma_times_within(a: Fixed, b: Fixed)
    requires
        -SCALE <= a.micros <= SCALE,
        b.micros >= 0,
    ensures
        -b.micros <= a.times(b).micros <= b.micros,
        a.micros >= 0 ==> a.times(b).micros >= 0,
{
    let product = a.micros * b.micros;
    assert(-1_000_000 * b.micros <= product <= 1_000_000 * b.micros && (a.micros >= 0 ==> product
        >= 0)) by (nonlinear_arith)
        requires
            product == a.micros * b.micros,
            -1_000_000 <= a.micros <= 1_000_000,
            b.micros >= 0,
    ;
    let quotient = quotient_toward_zero(product, SCALE as int);
    assert(-b.micros <= quotient <= b.micros && (a.micros >= 0 ==> quotient >= 0)) by {
        if product >= 0 {
            assert(0 <= product / 1_000_000 <= b.micros);
        } else {
            assert(0 <= (-product) / 1_000_000 <= b.micros);
        }
    }
    assert(a.times(b).micros == quotient);
}

/// The wide value brought into the range of `i64`.
fn narrow(wide: i128) -> (r: i64)
    ensures
        r == saturate(wide as int),
{
    if wide < i64::MIN as i128 {
        i64::MIN
    } else if wide > i64::MAX as i128 {
        i64::MAX
    } else {
        wide as i64
    }
}

/// The product of two 64-bit values fits in 128 bits with room to spare.
proof fn lemma_product_fits(a: int, b: int)
    requires
        i64::MIN <= a <= i64::MAX,
        i64::MIN <= b <= i64::MAX,
    ensures
        -0x4000_0000_0000_0000_0000_0000_0000_0000 <= a * b
            <= 0x4000_0000_0000_0000_0000_0000_0000_0000,
{
    assert(-0x4000_0000_0000_0000_0000_0000_0000_0000 <= a * b
        <= 0x4000_0000_0000_0000_0000_0000_0000_0000) by (nonlinear_arith)
        requires
            -0x8000_0000_0000_0000 <= a <= 0x8000_0000_0000_0000,
            -0x8000_0000_0000_0000 <= b <= 0x8000_0000_0000_0000,
    ;
}

} // verus!
