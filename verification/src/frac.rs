//! Exact rational numbers: an executable fixed-width fraction and its
//! unbounded specification model.
//!
//! Specifications speak about [`Rat`], a pair of unbounded integers, through
//! the structural operations below; the executable [`Frac`] mirrors those
//! operations exactly over `i128` components, checking every intermediate
//! product so that an out-of-range value is reported instead of wrapping.

use vstd::prelude::*;

verus! {

/// A mathematical rational `num / den`, used only in specifications.
pub struct Rat {
    /// Numerator; carries the sign.
    pub num: int,
    /// Denominator; positive for well-formed values.
    pub den: int,
}

/// A well-formed rational keeps its denominator strictly positive.
pub open spec fn rat_wf(a: Rat) -> bool {
    a.den > 0
}

/// The rational with integer value `n`.
pub open spec fn rat_of_int(n: int) -> Rat {
    Rat { num: n, den: 1 }
}

/// `a + b`, over the product of the denominators.
pub open spec fn rat_add(a: Rat, b: Rat) -> Rat {
    Rat { num: a.num * b.den + b.num * a.den, den: a.den * b.den }
}

/// `a - b`, over the product of the denominators.
pub open spec fn rat_sub(a: Rat, b: Rat) -> Rat {
    Rat { num: a.num * b.den - b.num * a.den, den: a.den * b.den }
}

/// `a * b`.
pub open spec fn rat_mul(a: Rat, b: Rat) -> Rat {
    Rat { num: a.num * b.num, den: a.den * b.den }
}

/// `-a`.
pub open spec fn rat_neg(a: Rat) -> Rat {
    Rat { num: -a.num, den: a.den }
}

/// `a / b`; the sign of the divisor moves into the numerator so that the
/// denominator stays positive.  Meaningful only when `b.num != 0`.
pub open spec fn rat_div(a: Rat, b: Rat) -> Rat {
    if b.num >= 0 {
        Rat { num: a.num * b.den, den: a.den * b.num }
    } else {
        Rat { num: -(a.num * b.den), den: -(a.den * b.num) }
    }
}

/// Value equality by cross-multiplication; sound whenever both denominators
/// are nonzero.
pub open spec fn rat_eq(a: Rat, b: Rat) -> bool {
    a.num * b.den == b.num * a.den
}

/// `a <= b` by cross-multiplication; sound whenever both denominators are
/// positive.
pub open spec fn rat_le(a: Rat, b: Rat) -> bool {
    a.num * b.den <= b.num * a.den
}

/// `a < b` by cross-multiplication; sound whenever both denominators are
/// positive.
pub open spec fn rat_lt(a: Rat, b: Rat) -> bool {
    a.num * b.den < b.num * a.den
}

/// Whether `x` fits the executable component width.
pub open spec fn fits_i128(x: int) -> bool {
    i128::MIN <= x <= i128::MAX
}

/// All components of `f` within `bound` in magnitude, denominator
/// positive: such values are far from the edge of the component width, so
/// a short chain of operations on them cannot go out of range.
pub open spec fn frac_bounded(f: Frac, bound: int) -> bool {
    &&& -bound <= f.num <= bound
    &&& 0 < f.den <= bound
}

/// The product of two bounded factors is bounded by the product of the
/// bounds.
pub proof fn lemma_mul_bound(a: int, b: int, m: int, n: int)
    requires
        -m <= a <= m,
        -n <= b <= n,
    ensures
        -(m * n) <= a * b <= m * n,
{
    assert(-(m * n) <= a * b <= m * n) by (nonlinear_arith)
        requires
            -m <= a <= m,
            -n <= b <= n,
    ;
}

/// A specification rational with both components within `bound` in
/// magnitude and a positive denominator.
pub open spec fn rat_bounded(a: Rat, bound: int) -> bool {
    &&& -bound <= a.num <= bound
    &&& 0 < a.den <= bound
}

/// Adding rationals bounded by `m` and `n` keeps every cross product, and
/// the result, within `2 * m * n`: in range whenever that product is.
pub proof fn lemma_rat_add_bounded(a: Rat, b: Rat, m: int, n: int)
    requires
        rat_bounded(a, m),
        rat_bounded(b, n),
        2 * (m * n) <= i128::MAX,
    ensures
        rat_bounded(rat_add(a, b), 2 * (m * n)),
        fits_i128(a.num * b.den),
        fits_i128(b.num * a.den),
        fits_i128(a.num * b.den + b.num * a.den),
        fits_i128(a.den * b.den),
{
    lemma_mul_bound(a.num, b.den, m, n);
    lemma_mul_bound(b.num, a.den, n, m);
    lemma_mul_bound(a.den, b.den, m, n);
    assert(m * n == n * m) by (nonlinear_arith);
    assert(m * n >= 1) by (nonlinear_arith)
        requires
            m >= 1,
            n >= 1,
    ;
    assert(a.den * b.den > 0) by (nonlinear_arith)
        requires
            a.den > 0,
            b.den > 0,
    ;
}

/// Subtracting rationals bounded by `m` and `n` keeps every cross product,
/// and the result, within `2 * m * n`.
pub proof fn lemma_rat_sub_bounded(a: Rat, b: Rat, m: int, n: int)
    requires
        rat_bounded(a, m),
        rat_bounded(b, n),
        2 * (m * n) <= i128::MAX,
    ensures
        rat_bounded(rat_sub(a, b), 2 * (m * n)),
        fits_i128(a.num * b.den),
        fits_i128(b.num * a.den),
        fits_i128(a.num * b.den - b.num * a.den),
        fits_i128(a.den * b.den),
{
    lemma_mul_bound(a.num, b.den, m, n);
    lemma_mul_bound(b.num, a.den, n, m);
    lemma_mul_bound(a.den, b.den, m, n);
    assert(m * n == n * m) by (nonlinear_arith);
    assert(m * n >= 1) by (nonlinear_arith)
        requires
            m >= 1,
            n >= 1,
    ;
    assert(a.den * b.den > 0) by (nonlinear_arith)
        requires
            a.den > 0,
            b.den > 0,
    ;
}

/// Multiplying rationals bounded by `m` and `n` keeps both products, and
/// the result, within `m * n`.
pub proof fn lemma_rat_mul_bounded(a: Rat, b: Rat, m: int, n: int)
    requires
        rat_bounded(a, m),
        rat_bounded(b, n),
        m * n <= i128::MAX,
    ensures
        rat_bounded(rat_mul(a, b), m * n),
        fits_i128(a.num * b.num),
        fits_i128(a.den * b.den),
{
    lemma_mul_bound(a.num, b.num, m, n);
    lemma_mul_bound(a.den, b.den, m, n);
    assert(m * n >= 1) by (nonlinear_arith)
        requires
            m >= 1,
            n >= 1,
    ;
    assert(a.den * b.den > 0) by (nonlinear_arith)
        requires
            a.den > 0,
            b.den > 0,
    ;
}

/// Dividing rationals bounded by `m` and `n` keeps both products, and the
/// result, within `m * n`; neither product can reach the minimum value.
pub proof fn lemma_rat_div_bounded(a: Rat, b: Rat, m: int, n: int)
    requires
        rat_bounded(a, m),
        rat_bounded(b, n),
        b.num != 0,
        m * n <= i128::MAX,
    ensures
        rat_bounded(rat_div(a, b), m * n),
        fits_i128(a.num * b.den),
        fits_i128(a.den * b.num),
        a.num * b.den != i128::MIN,
        a.den * b.num != i128::MIN,
{
    lemma_mul_bound(a.num, b.den, m, n);
    lemma_mul_bound(a.den, b.num, m, n);
    assert(m * n >= 1) by (nonlinear_arith)
        requires
            m >= 1,
            n >= 1,
    ;
    if b.num > 0 {
        assert(a.den * b.num > 0) by (nonlinear_arith)
            requires
                a.den > 0,
                b.num > 0,
        ;
    } else {
        assert(a.den * b.num < 0) by (nonlinear_arith)
            requires
                a.den > 0,
                b.num < 0,
        ;
    }
}

/// Multiplication distributes over addition and subtraction.
proof fn lemma_mul_distributes(p: int, q: int, r: int)
    ensures
        (p - q) * r == p * r - q * r,
        (p + q) * r == p * r + q * r,
{
    assert((p - q) * r == p * r - q * r) by (nonlinear_arith);
    assert((p + q) * r == p * r + q * r) by (nonlinear_arith);
}

/// Multiplying the quotient `n / d` back by `d` yields `n`.
pub proof fn lemma_rat_div_mul_cancel(n: Rat, d: Rat)
    ensures
        rat_eq(rat_mul(d, rat_div(n, d)), n),
{
    if d.num >= 0 {
        assert((d.num * (n.num * d.den)) * n.den == n.num * (d.den * (n.den * d.num)))
            by (nonlinear_arith);
    } else {
        assert((d.num * (-(n.num * d.den))) * n.den == n.num * (d.den * (-(n.den * d.num))))
            by (nonlinear_arith);
    }
}

/// A term with a zero slope contributes nothing: `c` equals `k*x + c`
/// whenever the value of `k` is zero.
pub proof fn lemma_rat_zero_slope_term(k: Rat, x: Rat, c: Rat)
    requires
        k.num == 0,
    ensures
        rat_eq(c, rat_add(rat_mul(k, x), c)),
{
    assert(c.num * ((k.den * x.den) * c.den) == (k.num * x.num * c.den + c.num * (k.den * x.den))
        * c.den) by (nonlinear_arith)
        requires
            k.num == 0,
    ;
}

/// Moving an addend across a value equality: from `p = q - t` follows
/// `q = p + t`.
pub proof fn lemma_rat_move_addend(p: Rat, q: Rat, t: Rat)
    requires
        rat_eq(p, rat_sub(q, t)),
    ensures
        rat_eq(q, rat_add(p, t)),
{
    let a: int = p.num;
    let b: int = p.den;
    let c: int = q.num;
    let d: int = q.den;
    let e: int = t.num;
    let f: int = t.den;
    // Expand both sides of the hypothesis and the goal into one canonical
    // ordering of monomials.
    lemma_mul_distributes(c * f, e * d, b);
    assert(a * (d * f) == a * d * f) by (nonlinear_arith);
    assert((c * f) * b == b * c * f) by (nonlinear_arith);
    assert((e * d) * b == b * d * e) by (nonlinear_arith);
    lemma_mul_distributes(a * f, e * b, d);
    assert(c * (b * f) == b * c * f) by (nonlinear_arith);
    assert((a * f) * d == a * d * f) by (nonlinear_arith);
    assert((e * b) * d == b * d * e) by (nonlinear_arith);
    assert((a * f - e * b) * d == (a * f) * d - (e * b) * d) by (nonlinear_arith);
    assert((a * f + e * b) * d == (a * f) * d + (e * b) * d) by (nonlinear_arith);
}

/// Balancing two sloped lines: if `(lk - rk) * x` has the value of
/// `rc - lc`, then `lk*x + lc` and `rk*x + rc` have the same value.
#[verifier::rlimit(30)]
pub proof fn lemma_rat_cross_balance(lk: Rat, lc: Rat, rk: Rat, rc: Rat, x: Rat)
    requires
        rat_eq(rat_mul(rat_sub(lk, rk), x), rat_sub(rc, lc)),
    ensures
        rat_eq(rat_add(rat_mul(lk, x), lc), rat_add(rat_mul(rk, x), rc)),
{
    let a: int = lk.num;
    let b: int = lk.den;
    let c: int = lc.num;
    let d: int = lc.den;
    let e: int = rk.num;
    let f: int = rk.den;
    let g: int = rc.num;
    let h: int = rc.den;
    let xn: int = x.num;
    let xd: int = x.den;

    // Expand the hypothesis into a difference of monomials.
    lemma_mul_distributes(a * f, e * b, xn);
    lemma_mul_distributes((a * f) * xn, (e * b) * xn, h * d);
    lemma_mul_distributes(g * d, c * h, (b * f) * xd);
    let m1: int = ((a * f) * xn) * (h * d);
    let m2: int = ((e * b) * xn) * (h * d);
    let n1: int = (g * d) * ((b * f) * xd);
    let n2: int = (c * h) * ((b * f) * xd);
    assert(m1 - m2 == n1 - n2);

    // Scale that difference by the denominator of `x` and bring every
    // monomial into one canonical ordering.
    lemma_mul_distributes(m1, m2, xd);
    lemma_mul_distributes(n1, n2, xd);
    assert(m1 * xd - m2 * xd == n1 * xd - n2 * xd);
    assert((((a * f) * xn) * (h * d)) * xd == a * d * f * h * xn * xd) by (nonlinear_arith);
    assert((((e * b) * xn) * (h * d)) * xd == b * d * e * h * xn * xd) by (nonlinear_arith);
    assert(((g * d) * ((b * f) * xd)) * xd == b * d * f * g * xd * xd) by (nonlinear_arith);
    assert(((c * h) * ((b * f) * xd)) * xd == b * c * f * h * xd * xd) by (nonlinear_arith);

    // Expand both sides of the goal into the same monomials.
    lemma_mul_distributes((a * xn) * d, c * (b * xd), (f * xd) * h);
    lemma_mul_distributes((e * xn) * h, g * (f * xd), (b * xd) * d);
    assert(((a * xn) * d) * ((f * xd) * h) == a * d * f * h * xn * xd) by (nonlinear_arith);
    assert((c * (b * xd)) * ((f * xd) * h) == b * c * f * h * xd * xd) by (nonlinear_arith);
    assert(((e * xn) * h) * ((b * xd) * d) == b * d * e * h * xn * xd) by (nonlinear_arith);
    assert((g * (f * xd)) * ((b * xd) * d) == b * d * f * g * xd * xd) by (nonlinear_arith);
}

/// An exact rational with fixed-width components.  The denominator is kept
/// strictly positive; all arithmetic is checked and reports an out-of-range
/// intermediate by returning `None`.
#[derive(Debug, Clone, Copy, PartialEq, Eq, Structural)]
pub struct Frac {
    /// Numerator; carries the sign.
    pub num: i128,
    /// Denominator; strictly positive for well-formed values.
    pub den: i128,
}

impl View for Frac {
    type V = Rat;

    open spec fn view(&self) -> Rat {
        Rat { num: self.num as int, den: self.den as int }
    }
}

impl Frac {
    /// Well-formedness: the denominator is strictly positive.
    pub open spec fn wf(self) -> bool {
        self.den > 0
    }

    /// Builds `num / den`, moving the sign of `den` into the numerator.
    pub fn new(num: i64, den: i64) -> (r: Frac)
        requires
            den != 0,
        ensures
            r.wf(),
            rat_eq(r@, (Rat { num: num as int, den: den as int })),
    {
        if den > 0 {
            Frac { num: num as i128, den: den as i128 }
        } else {
            proof {
                assert((-(num as int)) * (den as int) == (num as int) * (-(den as int)))
                    by (nonlinear_arith);
            }
            Frac { num: -(num as i128), den: -(den as i128) }
        }
    }

    /// The integer `n` as a fraction.
    pub fn from_u32(n: u32) -> (r: Frac)
        ensures
            r.wf(),
            r@ == rat_of_int(n as int),
    {
        Frac { num: n as i128, den: 1 }
    }

    /// Checked addition.
    pub fn add(self, other: Frac) -> (r: Option<Frac>)
        requires
            self.wf(),
            other.wf(),
        ensures
            r matches Some(v) ==> v.wf() && v@ == rat_add(self@, other@),
            r is Some <==> {
                &&& fits_i128(self@.num * other@.den)
                &&& fits_i128(other@.num * self@.den)
                &&& fits_i128(self@.num * other@.den + other@.num * self@.den)
                &&& fits_i128(self@.den * other@.den)
            },
    {
        let p1 = match self.num.checked_mul(other.den) {
            Some(v) => v,
            None => return None,
        };
        let p2 = match other.num.checked_mul(self.den) {
            Some(v) => v,
            None => return None,
        };
        let n = match p1.checked_add(p2) {
            Some(v) => v,
            None => return None,
        };
        let d = match self.den.checked_mul(other.den) {
            Some(v) => v,
            None => return None,
        };
        proof {
            assert((self.den as int) * (other.den as int) > 0) by (nonlinear_arith)
                requires
                    self.den > 0,
                    other.den > 0,
            ;
        }
        Some(Frac { num: n, den: d })
    }

    /// Checked subtraction.
    pub fn sub(self, other: Frac) -> (r: Option<Frac>)
        requires
            self.wf(),
            other.wf(),
        ensures
            r matches Some(v) ==> v.wf() && v@ == rat_sub(self@, other@),
            r is Some <==> {
                &&& fits_i128(self@.num * other@.den)
                &&& fits_i128(other@.num * self@.den)
                &&& fits_i128(self@.num * other@.den - other@.num * self@.den)
                &&& fits_i128(self@.den * other@.den)
            },
    {
        let p1 = match self.num.checked_mul(other.den) {
            Some(v) => v,
            None => return None,
        };
        let p2 = match other.num.checked_mul(self.den) {
            Some(v) => v,
            None => return None,
        };
        let n = match p1.checked_sub(p2) {
            Some(v) => v,
            None => return None,
        };
        let d = match self.den.checked_mul(other.den) {
            Some(v) => v,
            None => return None,
        };
        proof {
            assert((self.den as int) * (other.den as int) > 0) by (nonlinear_arith)
                requires
                    self.den > 0,
                    other.den > 0,
            ;
        }
        Some(Frac { num: n, den: d })
    }

    /// Checked multiplication.
    pub fn mul(self, other: Frac) -> (r: Option<Frac>)
        requires
            self.wf(),
            other.wf(),
        ensures
            r matches Some(v) ==> v.wf() && v@ == rat_mul(self@, other@),
            r is Some <==> fits_i128(self@.num * other@.num) && fits_i128(
                self@.den * other@.den,
            ),
    {
        let n = match self.num.checked_mul(other.num) {
            Some(v) => v,
            None => return None,
        };
        let d = match self.den.checked_mul(other.den) {
            Some(v) => v,
            None => return None,
        };
        proof {
            assert((self.den as int) * (other.den as int) > 0) by (nonlinear_arith)
                requires
                    self.den > 0,
                    other.den > 0,
            ;
        }
        Some(Frac { num: n, den: d })
    }

    /// Checked division; the divisor must be nonzero.
    pub fn div(self, other: Frac) -> (r: Option<Frac>)
        requires
            self.wf(),
            other.wf(),
            other.num != 0,
        ensures
            r matches Some(v) ==> v.wf() && v@ == rat_div(self@, other@),
            r is Some <==> {
                &&& fits_i128(self@.num * other@.den)
                &&& fits_i128(self@.den * other@.num)
                &&& (other.num < 0 ==> self@.num * other@.den != i128::MIN && self@.den
                    * other@.num != i128::MIN)
            },
    {
        let n = match self.num.checked_mul(other.den) {
            Some(v) => v,
            None => return None,
        };
        let d = match self.den.checked_mul(other.num) {
            Some(v) => v,
            None => return None,
        };
        proof {
            assert(other.num > 0 ==> (self.den as int) * (other.num as int) > 0)
                by (nonlinear_arith)
                requires
                    self.den > 0,
            ;
            assert(other.num < 0 ==> (self.den as int) * (other.num as int) < 0)
                by (nonlinear_arith)
                requires
                    self.den > 0,
            ;
        }
        if d > 0 {
            Some(Frac { num: n, den: d })
        } else {
            // The divisor was negative: flip both signs to keep the
            // denominator positive.
            if n == i128::MIN {
                return None;
            }
            if d == i128::MIN {
                return None;
            }
            Some(Frac { num: -n, den: -d })
        }
    }

    /// Checked negation.
    pub fn neg(self) -> (r: Option<Frac>)
        requires
            self.wf(),
        ensures
            r matches Some(v) ==> v.wf() && v@ == rat_neg(self@),
            r is Some <==> self.num > i128::MIN,
    {
        if self.num == i128::MIN {
            None
        } else {
            Some(Frac { num: -self.num, den: self.den })
        }
    }

    /// Whether the value is exactly zero.
    pub fn is_zero(self) -> (r: bool)
        requires
            self.wf(),
        ensures
            r <==> self.num == 0,
            r <==> rat_eq(self@, rat_of_int(0)),
    {
        self.num == 0
    }

    /// Checked `<` on values.
    pub fn lt(self, other: Frac) -> (r: Option<bool>)
        requires
            self.wf(),
            other.wf(),
        ensures
            r matches Some(b) ==> (b <==> rat_lt(self@, other@)),
            r is Some <==> fits_i128(self@.num * other@.den) && fits_i128(
                other@.num * self@.den,
            ),
    {
        let p1 = match self.num.checked_mul(other.den) {
            Some(v) => v,
            None => return None,
        };
        let p2 = match other.num.checked_mul(self.den) {
            Some(v) => v,
            None => return None,
        };
        Some(p1 < p2)
    }

    /// Checked `<=` on values.
    pub fn le(self, other: Frac) -> (r: Option<bool>)
        requires
            self.wf(),
            other.wf(),
        ensures
            r matches Some(b) ==> (b <==> rat_le(self@, other@)),
            r is Some <==> fits_i128(self@.num * other@.den) && fits_i128(
                other@.num * self@.den,
            ),
    {
        let p1 = match self.num.checked_mul(other.den) {
            Some(v) => v,
            None => return None,
        };
        let p2 = match other.num.checked_mul(self.den) {
            Some(v) => v,
            None => return None,
        };
        Some(p1 <= p2)
    }

    /// Checked value equality (`1/2` equals `2/4`).
    pub fn same_value(self, other: Frac) -> (r: Option<bool>)
        requires
            self.wf(),
            other.wf(),
        ensures
            r matches Some(b) ==> (b <==> rat_eq(self@, other@)),
            r is Some <==> fits_i128(self@.num * other@.den) && fits_i128(
                other@.num * self@.den,
            ),
    {
        let p1 = match self.num.checked_mul(other.den) {
            Some(v) => v,
            None => return None,
        };
        let p2 = match other.num.checked_mul(self.den) {
            Some(v) => v,
            None => return None,
        };
        Some(p1 == p2)
    }
}

} // verus!

