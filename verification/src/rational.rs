//! Exact rational scalars.
//!
//! Constraint targets and every value read back from a solved model are exact
//! rationals: an `i64` numerator over a positive `i64` denominator. The
//! mathematical model of such a value is [`Ratio`], an unbounded
//! numerator/denominator pair, with equality and ordering defined by
//! cross-multiplication.

use vstd::prelude::*;

verus! {

/// The mathematical value of a rational: an unbounded fraction `n / d`.
/// Meaningful only when `d != 0`; two fractions are the same number when they
/// cross-multiply equally.
pub ghost struct Ratio {
    pub n: int,
    pub d: int,
}

/// A fraction denotes a number only when its denominator is not zero.
pub open spec fn ratio_wf(a: Ratio) -> bool {
    a.d != 0
}

/// `a` and `b` denote the same number.
pub open spec fn ratio_eq(a: Ratio, b: Ratio) -> bool {
    a.n * b.d == b.n * a.d
}

/// `a <= b` as numbers: `b - a` has numerator `b.n*a.d - a.n*b.d` over
/// denominator `a.d*b.d`, and a fraction is nonnegative when its numerator
/// and denominator agree in sign.
pub open spec fn ratio_le(a: Ratio, b: Ratio) -> bool {
    (b.n * a.d - a.n * b.d) * (a.d * b.d) >= 0
}

pub open spec fn ratio_add(a: Ratio, b: Ratio) -> Ratio {
    Ratio { n: a.n * b.d + b.n * a.d, d: a.d * b.d }
}

pub open spec fn ratio_sub(a: Ratio, b: Ratio) -> Ratio {
    Ratio { n: a.n * b.d - b.n * a.d, d: a.d * b.d }
}

pub open spec fn ratio_mul(a: Ratio, b: Ratio) -> Ratio {
    Ratio { n: a.n * b.n, d: a.d * b.d }
}

/// The whole number `n`, as a fraction.
pub open spec fn ratio_int(n: int) -> Ratio {
    Ratio { n: n, d: 1 }
}

/// `x` is representable as an `i64`.
pub open spec fn fits_i64(x: int) -> bool {
    i64::MIN <= x <= i64::MAX
}

/// An exact rational number: `num / den` with `den > 0`.
#[derive(Debug, Clone, Copy, PartialEq, Eq, Structural)]
pub struct Rational {
    pub num: i64,
    pub den: i64,
}

impl Rational {
    /// Well-formed rationals keep their denominator positive, so that
    /// ordering and sign can be read off the numerator.
    pub open spec fn wf(self) -> bool {
        self.den > 0
    }

    /// The number this value denotes.
    pub open spec fn ratio(self) -> Ratio {
        Ratio { n: self.num as int, d: self.den as int }
    }

    /// The fraction `num / den`, for a positive denominator.
    pub fn new(num: i64, den: i64) -> (r: Rational)
        requires
            den > 0,
        ensures
            r.wf(),
            r.num == num,
            r.den == den,
    {
        Rational { num, den }
    }

    /// The whole number `n`.
    pub fn from_int(n: i64) -> (r: Rational)
        ensures
            r.wf(),
            r.ratio() == ratio_int(n as int),
    {
        Rational { num: n, den: 1 }
    }

    /// Normalize an arbitrary numerator/denominator pair, as a solver model
    /// hands them out: a zero denominator denotes no number and is refused; a
    /// negative denominator is moved into the numerator. `None` otherwise only
    /// on the two `i64::MIN` sign flips that cannot be negated.
    pub fn from_parts(num: i64, den: i64) -> (r: Option<Rational>)
        ensures
            match r {
                Some(q) => q.wf() && den != 0 && ratio_eq(
                    q.ratio(),
                    Ratio { n: num as int, d: den as int },
                ),
                None => den == 0 || (den < 0 && (num == i64::MIN || den == i64::MIN)),
            },
    {
        if den > 0 {
            Some(Rational { num, den })
        } else if den == 0 || den == i64::MIN || num == i64::MIN {
            None
        } else {
            let q = Rational { num: -num, den: -den };
            proof {
                assert(ratio_eq(q.ratio(), Ratio { n: num as int, d: den as int })) by (nonlinear_arith)
                    requires
                        q.num == -(num as int),
                        q.den == -(den as int),
                ;
            }
            Some(q)
        }
    }
}

/// `|x| <= bx` and `|y| <= by` bound the product: `|x * y| <= bx * by`.
proof fn lemma_mul_bound(x: int, y: int, bx: int, by: int)
    requires
        -bx <= x <= bx,
        -by <= y <= by,
        0 <= bx,
        0 <= by,
    ensures
        -(bx * by) <= x * y <= bx * by,
{
    assert(-(bx * by) <= x * y <= bx * by) by (nonlinear_arith)
        requires
            -bx <= x <= bx,
            -by <= y <= by,
            0 <= bx,
            0 <= by,
    ;
}

/// The product of an `i64` numerator and a positive `i64` denominator stays
/// well inside `i128`.
proof fn lemma_i64_prod_bound(x: int, y: int)
    requires
        i64::MIN <= x <= i64::MAX,
        0 < y <= i64::MAX,
    ensures
        -0x8000_0000_0000_0000 * 0x7fff_ffff_ffff_ffff <= x * y
            <= 0x8000_0000_0000_0000 * 0x7fff_ffff_ffff_ffff,
{
    lemma_mul_bound(x, y, 0x8000_0000_0000_0000, 0x7fff_ffff_ffff_ffff);
}

impl Rational {
    /// Exact addition; `None` exactly when the exact result does not fit an
    /// `i64` fraction.
    pub fn checked_add(self, other: Rational) -> (r: Option<Rational>)
        requires
            self.wf(),
            other.wf(),
        ensures
            match r {
                Some(c) => c.wf() && c.ratio() == ratio_add(self.ratio(), other.ratio()),
                None => !(fits_i64(ratio_add(self.ratio(), other.ratio()).n) && fits_i64(
                    ratio_add(self.ratio(), other.ratio()).d,
                )),
            },
    {
        proof {
            lemma_i64_prod_bound(self.num as int, other.den as int);
            lemma_i64_prod_bound(other.num as int, self.den as int);
            lemma_i64_prod_bound(self.den as int, other.den as int);
            assert((self.den as int) * (other.den as int) >= 1) by (nonlinear_arith)
                requires
                    self.den >= 1,
                    other.den >= 1,
            ;
        }
        let n: i128 = (self.num as i128) * (other.den as i128) + (other.num as i128) * (self.den
            as i128);
        let d: i128 = (self.den as i128) * (other.den as i128);
        if n >= i64::MIN as i128 && n <= i64::MAX as i128 && d <= i64::MAX as i128 {
            Some(Rational { num: n as i64, den: d as i64 })
        } else {
            None
        }
    }

    /// Exact subtraction; `None` exactly when the exact result does not fit.
    pub fn checked_sub(self, other: Rational) -> (r: Option<Rational>)
        requires
            self.wf(),
            other.wf(),
        ensures
            match r {
                Some(c) => c.wf() && c.ratio() == ratio_sub(self.ratio(), other.ratio()),
                None => !(fits_i64(ratio_sub(self.ratio(), other.ratio()).n) && fits_i64(
                    ratio_sub(self.ratio(), other.ratio()).d,
                )),
            },
    {
        proof {
            lemma_i64_prod_bound(self.num as int, other.den as int);
            lemma_i64_prod_bound(other.num as int, self.den as int);
            lemma_i64_prod_bound(self.den as int, other.den as int);
            assert((self.den as int) * (other.den as int) >= 1) by (nonlinear_arith)
                requires
                    self.den >= 1,
                    other.den >= 1,
            ;
        }
        let n: i128 = (self.num as i128) * (other.den as i128) - (other.num as i128) * (self.den
            as i128);
        let d: i128 = (self.den as i128) * (other.den as i128);
        if n >= i64::MIN as i128 && n <= i64::MAX as i128 && d <= i64::MAX as i128 {
            Some(Rational { num: n as i64, den: d as i64 })
        } else {
            None
        }
    }

    /// Exact multiplication; `None` exactly when the exact result does not fit.
    pub fn checked_mul(self, other: Rational) -> (r: Option<Rational>)
        requires
            self.wf(),
            other.wf(),
        ensures
            match r {
                Some(c) => c.wf() && c.ratio() == ratio_mul(self.ratio(), other.ratio()),
                None => !(fits_i64(ratio_mul(self.ratio(), other.ratio()).n) && fits_i64(
                    ratio_mul(self.ratio(), other.ratio()).d,
                )),
            },
    {
        proof {
            lemma_mul_bound(
                self.num as int,
                other.num as int,
                0x8000_0000_0000_0000,
                0x8000_0000_0000_0000,
            );
            lemma_i64_prod_bound(self.den as int, other.den as int);
            assert((self.den as int) * (other.den as int) >= 1) by (nonlinear_arith)
                requires
                    self.den >= 1,
                    other.den >= 1,
            ;
        }
        let n: i128 = (self.num as i128) * (other.num as i128);
        let d: i128 = (self.den as i128) * (other.den as i128);
        if n >= i64::MIN as i128 && n <= i64::MAX as i128 && d <= i64::MAX as i128 {
            Some(Rational { num: n as i64, den: d as i64 })
        } else {
            None
        }
    }

    /// True exactly when this value denotes zero.
    pub fn is_zero_value(self) -> (r: bool)
        requires
            self.wf(),
        ensures
            r == ratio_eq(self.ratio(), ratio_int(0)),
    {
        self.num == 0
    }
}

} // verus!

verus! {

/// The negation of a fraction.
pub open spec fn ratio_neg(a: Ratio) -> Ratio {
    Ratio { n: -a.n, d: a.d }
}

/// The quotient of two fractions; denotes a number only when `b` is nonzero.
pub open spec fn ratio_div(a: Ratio, b: Ratio) -> Ratio {
    Ratio { n: a.n * b.d, d: a.d * b.n }
}

/// The quotient with the denominator's sign moved into the numerator.
pub open spec fn ratio_div_norm(a: Ratio, b: Ratio) -> Ratio {
    let raw = ratio_div(a, b);
    if raw.d < 0 {
        Ratio { n: -raw.n, d: -raw.d }
    } else {
        raw
    }
}

/// Integer division truncated toward zero.
pub open spec fn tdiv(p: int, q: int) -> int {
    let m = (vstd::math::abs(p) / vstd::math::abs(q)) as int;
    if (p >= 0) == (q >= 0) {
        m
    } else {
        -m
    }
}

/// The remainder of two fractions with the sign convention of truncated
/// division: `a - b * trunc(a / b)`; denotes a number only when `b` is
/// nonzero.
pub open spec fn ratio_rem(a: Ratio, b: Ratio) -> Ratio {
    ratio_sub(a, ratio_mul(b, ratio_int(tdiv(a.n * b.d, a.d * b.n))))
}

impl Rational {
    /// Exact negation; `None` only at the single unrepresentable numerator.
    pub fn checked_neg(self) -> (r: Option<Rational>)
        requires
            self.wf(),
        ensures
            match r {
                Some(c) => c.wf() && c.ratio() == ratio_neg(self.ratio()),
                None => self.num == i64::MIN,
            },
    {
        if self.num == i64::MIN {
            None
        } else {
            Some(Rational { num: -self.num, den: self.den })
        }
    }

    /// Exact division; `None` exactly when the divisor is zero or the exact
    /// (sign-normalized) result does not fit an `i64` fraction.
    pub fn checked_div(self, other: Rational) -> (r: Option<Rational>)
        requires
            self.wf(),
            other.wf(),
        ensures
            match r {
                Some(c) => c.wf() && other.num != 0 && c.ratio() == ratio_div_norm(
                    self.ratio(),
                    other.ratio(),
                ) && ratio_eq(c.ratio(), ratio_div(self.ratio(), other.ratio())),
                None => other.num == 0 || !(fits_i64(
                    ratio_div_norm(self.ratio(), other.ratio()).n,
                ) && fits_i64(ratio_div_norm(self.ratio(), other.ratio()).d)),
            },
    {
        if other.num == 0 {
            return None;
        }
        proof {
            lemma_i64_prod_bound(self.num as int, other.den as int);
            lemma_mul_bound(
                self.den as int,
                other.num as int,
                0x8000_0000_0000_0000,
                0x8000_0000_0000_0000,
            );
            assert((self.den as int) * (other.num as int) != 0) by (nonlinear_arith)
                requires
                    self.den >= 1,
                    other.num != 0,
            ;
        }
        let n0: i128 = (self.num as i128) * (other.den as i128);
        let d0: i128 = (self.den as i128) * (other.num as i128);
        let (n, d) = if d0 < 0 {
            (-n0, -d0)
        } else {
            (n0, d0)
        };
        if n >= i64::MIN as i128 && n <= i64::MAX as i128 && d <= i64::MAX as i128 {
            let q = Rational { num: n as i64, den: d as i64 };
            proof {
                let raw = ratio_div(self.ratio(), other.ratio());
                assert(ratio_eq(q.ratio(), raw)) by (nonlinear_arith)
                    requires
                        raw.d != 0,
                        (q.num == raw.n && q.den == raw.d) || (q.num == -raw.n && q.den
                            == -raw.d),
                ;
            }
            Some(q)
        } else {
            None
        }
    }
}

} // verus!

use vstd::arithmetic::div_mod::lemma_fundamental_div_mod;

verus! {

impl Rational {
    /// Exact remainder under the truncated-division sign convention (the
    /// dividend's sign): `a - b * trunc(a / b)`. `None` exactly when the
    /// divisor is zero or the exact result does not fit an `i64` fraction.
    pub fn checked_rem(self, other: Rational) -> (r: Option<Rational>)
        requires
            self.wf(),
            other.wf(),
        ensures
            match r {
                Some(c) => c.wf() && other.num != 0 && c.ratio() == ratio_rem(
                    self.ratio(),
                    other.ratio(),
                ),
                None => other.num == 0 || !(fits_i64(ratio_rem(self.ratio(), other.ratio()).n)
                    && fits_i64(ratio_rem(self.ratio(), other.ratio()).d)),
            },
    {
        if other.num == 0 {
            return None;
        }
        proof {
            lemma_i64_prod_bound(self.num as int, other.den as int);
            lemma_mul_bound(
                self.den as int,
                other.num as int,
                0x8000_0000_0000_0000,
                0x8000_0000_0000_0000,
            );
            lemma_i64_prod_bound(self.den as int, other.den as int);
            assert((self.den as int) * (other.num as int) != 0) by (nonlinear_arith)
                requires
                    self.den >= 1,
                    other.num != 0,
            ;
            assert((self.den as int) * (other.den as int) >= 1) by (nonlinear_arith)
                requires
                    self.den >= 1,
                    other.den >= 1,
            ;
        }
        let p: i128 = (self.num as i128) * (other.den as i128);
        let q: i128 = (self.den as i128) * (other.num as i128);
        let pa: u128 = if p < 0 {
            (-p) as u128
        } else {
            p as u128
        };
        let qa: u128 = if q < 0 {
            (-q) as u128
        } else {
            q as u128
        };
        let m: u128 = pa / qa;
        proof {
            assert(pa as int == vstd::math::abs(p as int));
            assert(qa as int == vstd::math::abs(q as int));
            lemma_fundamental_div_mod(pa as int, qa as int);
            assert(m as int * (qa as int) <= pa as int) by (nonlinear_arith)
                requires
                    pa as int == (qa as int) * (m as int) + (pa as int) % (qa as int),
                    (pa as int) % (qa as int) >= 0,
            ;
            assert(m <= pa) by (nonlinear_arith)
                requires
                    m as int * (qa as int) <= pa as int,
                    qa >= 1,
            ;
        }
        let t: i128 = if (p < 0) == (q < 0) {
            m as i128
        } else {
            -(m as i128)
        };
        proof {
            assert(t as int == tdiv(p as int, q as int));
            assert(vstd::math::abs((t as int) * (q as int)) == (m as int) * (qa as int))
                by (nonlinear_arith)
                requires
                    vstd::math::abs(t as int) == m as int,
                    vstd::math::abs(q as int) == qa as int,
            ;
        }
        let tq: i128 = t * q;
        let rn: i128 = p - tq;
        let rd: i128 = (self.den as i128) * (other.den as i128);
        proof {
            let a = self.ratio();
            let b = other.ratio();
            let rem = ratio_rem(a, b);
            assert(rem.n == (p as int) - (t as int) * (q as int) && rem.d == rd as int)
                by (nonlinear_arith)
                requires
                    p as int == a.n * b.d,
                    q as int == a.d * b.n,
                    rd as int == a.d * b.d,
                    t as int == tdiv(a.n * b.d, a.d * b.n),
                    rem == ratio_rem(a, b),
            ;
        }
        if rn >= i64::MIN as i128 && rn <= i64::MAX as i128 && rd <= i64::MAX as i128 {
            Some(Rational { num: rn as i64, den: rd as i64 })
        } else {
            None
        }
    }
}

} // verus!
