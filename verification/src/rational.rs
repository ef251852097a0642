//! Exact rational numbers over `i128`, the magnitude representation shared
//! by every physical quantity in this crate.
//!
//! A value is a pair `num / den` with `den >= 1`; pairs are not reduced, so
//! two representations are compared by cross-multiplication (`rat_eq`).
//! Every operation states its exact result; operands must be small enough
//! that the cross products stay below `PROD_LIMIT`, which keeps all
//! intermediate machine arithmetic inside `i128`.

use vstd::prelude::*;

verus! {

/// Magnitude bound on the cross products formed by the exec operations.
/// `2 * PROD_LIMIT` is still far below `i128::MAX`, so sums of two cross
/// products cannot overflow.
pub const PROD_LIMIT: i128 = 1_000_000_000_000_000_000_000_000_000_000_000_000;

/// Mathematical model of a rational: an unbounded numerator/denominator pair.
pub struct RatModel {
    pub num: int,
    pub den: int,
}

/// A model is well formed when its denominator is positive.
pub open spec fn rat_wf(a: RatModel) -> bool {
    a.den >= 1
}

/// `a` and `b` denote the same rational value.
pub open spec fn rat_eq(a: RatModel, b: RatModel) -> bool {
    a.num * b.den == b.num * a.den
}

/// `a <= b` as rational values (meaningful when both are well formed).
pub open spec fn rat_le(a: RatModel, b: RatModel) -> bool {
    a.num * b.den <= b.num * a.den
}

/// `a < b` as rational values (meaningful when both are well formed).
pub open spec fn rat_lt(a: RatModel, b: RatModel) -> bool {
    a.num * b.den < b.num * a.den
}

pub open spec fn rat_of_int(n: int) -> RatModel {
    RatModel { num: n, den: 1 }
}

pub open spec fn rat_neg(a: RatModel) -> RatModel {
    RatModel { num: -a.num, den: a.den }
}

pub open spec fn rat_add(a: RatModel, b: RatModel) -> RatModel {
    RatModel { num: a.num * b.den + b.num * a.den, den: a.den * b.den }
}

pub open spec fn rat_sub(a: RatModel, b: RatModel) -> RatModel {
    RatModel { num: a.num * b.den - b.num * a.den, den: a.den * b.den }
}

pub open spec fn rat_mul(a: RatModel, b: RatModel) -> RatModel {
    RatModel { num: a.num * b.num, den: a.den * b.den }
}

/// Exact quotient `a / b`, with the denominator kept positive.
/// Meaningless when `b.num == 0`.
pub open spec fn rat_div(a: RatModel, b: RatModel) -> RatModel {
    if b.num >= 0 {
        RatModel { num: a.num * b.den, den: a.den * b.num }
    } else {
        RatModel { num: -(a.num * b.den), den: a.den * -b.num }
    }
}

/// Cross product small enough for the exec operations.
pub open spec fn in_prod_range(x: int) -> bool {
    -(PROD_LIMIT as int) <= x <= PROD_LIMIT as int
}

/// An exact rational magnitude: `num / den` with `den >= 1`.
#[derive(Clone, Copy, Debug, PartialEq, Eq, Structural)]
pub struct Rational {
    pub num: i128,
    pub den: i128,
}

impl View for Rational {
    type V = RatModel;

    open spec fn view(&self) -> RatModel {
        RatModel { num: self.num as int, den: self.den as int }
    }
}

impl Rational {
    pub open spec fn wf(&self) -> bool {
        rat_wf(self@)
    }

    pub fn new(num: i128, den: i128) -> (r: Self)
        requires
            den >= 1,
        ensures
            r@ == (RatModel { num: num as int, den: den as int }),
            r.wf(),
    {
        Rational { num, den }
    }

    pub fn from_int(n: i128) -> (r: Self)
        ensures
            r@ == rat_of_int(n as int),
            r.wf(),
    {
        Rational { num: n, den: 1 }
    }

    pub fn neg(self) -> (r: Self)
        requires
            self.wf(),
            in_prod_range(self@.num),
        ensures
            r@ == rat_neg(self@),
            r.wf(),
    {
        Rational { num: -self.num, den: self.den }
    }

    pub fn add(self, rhs: Self) -> (r: Self)
        requires
            self.wf(),
            rhs.wf(),
            in_prod_range(self@.num * rhs@.den),
            in_prod_range(rhs@.num * self@.den),
            in_prod_range(self@.den * rhs@.den),
        ensures
            r@ == rat_add(self@, rhs@),
            r.wf(),
    {
        proof {
            lemma_pos_mul_pos(self.den as int, rhs.den as int);
        }
        Rational { num: self.num * rhs.den + rhs.num * self.den, den: self.den * rhs.den }
    }

    pub fn sub(self, rhs: Self) -> (r: Self)
        requires
            self.wf(),
            rhs.wf(),
            in_prod_range(self@.num * rhs@.den),
            in_prod_range(rhs@.num * self@.den),
            in_prod_range(self@.den * rhs@.den),
        ensures
            r@ == rat_sub(self@, rhs@),
            r.wf(),
    {
        proof {
            lemma_pos_mul_pos(self.den as int, rhs.den as int);
        }
        Rational { num: self.num * rhs.den - rhs.num * self.den, den: self.den * rhs.den }
    }

    pub fn mul(self, rhs: Self) -> (r: Self)
        requires
            self.wf(),
            rhs.wf(),
            in_prod_range(self@.num * rhs@.num),
            in_prod_range(self@.den * rhs@.den),
        ensures
            r@ == rat_mul(self@, rhs@),
            r.wf(),
    {
        proof {
            lemma_pos_mul_pos(self.den as int, rhs.den as int);
        }
        Rational { num: self.num * rhs.num, den: self.den * rhs.den }
    }

    pub fn div(self, rhs: Self) -> (r: Self)
        requires
            self.wf(),
            rhs.wf(),
            rhs@.num != 0,
            in_prod_range(rhs@.num),
            in_prod_range(self@.num * rhs@.den),
            in_prod_range(self@.den * rhs@.num),
        ensures
            r@ == rat_div(self@, rhs@),
            r.wf(),
    {
        if rhs.num >= 1 {
            proof {
                lemma_pos_mul_pos(self.den as int, rhs.num as int);
            }
            Rational { num: self.num * rhs.den, den: self.den * rhs.num }
        } else {
            proof {
                lemma_mul_neg(self.den as int, rhs.num as int);
                lemma_pos_mul_pos(self.den as int, -rhs.num as int);
            }
            Rational { num: -(self.num * rhs.den), den: self.den * -rhs.num }
        }
    }

    pub fn le(&self, rhs: &Self) -> (r: bool)
        requires
            self.wf(),
            rhs.wf(),
            in_prod_range(self@.num * rhs@.den),
            in_prod_range(rhs@.num * self@.den),
        ensures
            r == rat_le(self@, rhs@),
    {
        self.num * rhs.den <= rhs.num * self.den
    }

    pub fn lt(&self, rhs: &Self) -> (r: bool)
        requires
            self.wf(),
            rhs.wf(),
            in_prod_range(self@.num * rhs@.den),
            in_prod_range(rhs@.num * self@.den),
        ensures
            r == rat_lt(self@, rhs@),
    {
        self.num * rhs.den < rhs.num * self.den
    }

    /// Value equality: the two pairs denote the same rational.
    pub fn eq_rat(&self, rhs: &Self) -> (r: bool)
        requires
            self.wf(),
            rhs.wf(),
            in_prod_range(self@.num * rhs@.den),
            in_prod_range(rhs@.num * self@.den),
        ensures
            r == rat_eq(self@, rhs@),
    {
        self.num * rhs.den == rhs.num * self.den
    }

    pub fn is_nonneg(&self) -> (r: bool)
        requires
            self.wf(),
        ensures
            r == rat_le(rat_of_int(0), self@),
    {
        self.num >= 0
    }
}

/// Bound on a product from bounds on its factors.
pub proof fn lemma_mul_bound(a: int, b: int, ba: int, bb: int)
    by (nonlinear_arith)
    requires
        -ba <= a <= ba,
        -bb <= b <= bb,
    ensures
        -(ba * bb) <= a * b <= ba * bb,
{
}

/// The product of two non-negative integers is non-negative.
pub proof fn lemma_mul_nonneg(a: int, b: int)
    by (nonlinear_arith)
    requires
        a >= 0,
        b >= 0,
    ensures
        a * b >= 0,
{
}

/// The product of two positive integers is positive.
pub proof fn lemma_pos_mul_pos(a: int, b: int)
    by (nonlinear_arith)
    requires
        a >= 1,
        b >= 1,
    ensures
        a * b >= 1,
{
}

/// Negating one factor negates the product.
proof fn lemma_mul_neg(a: int, b: int)
    by (nonlinear_arith)
    ensures
        a * -b == -(a * b),
{
}

/// Denoting the same value is transitive across representations.
pub proof fn lemma_rat_eq_trans(a: RatModel, b: RatModel, c: RatModel)
    by (nonlinear_arith)
    requires
        rat_wf(a),
        rat_wf(b),
        rat_wf(c),
        rat_eq(a, b),
        rat_eq(b, c),
    ensures
        rat_eq(a, c),
{
}

/// `rat_le` respects value equality on both sides.
pub proof fn lemma_rat_le_respects_eq(a1: RatModel, a2: RatModel, b1: RatModel, b2: RatModel)
    by (nonlinear_arith)
    requires
        rat_wf(a1),
        rat_wf(a2),
        rat_wf(b1),
        rat_wf(b2),
        rat_eq(a1, a2),
        rat_eq(b1, b2),
        rat_le(a1, b1),
    ensures
        rat_le(a2, b2),
{
}

} // verus!
