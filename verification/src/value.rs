//! Physical quantities: Length, Area, Force and Stress.
//!
//! Each quantity stores an exact rational magnitude normalized to the
//! canonical base unit of its dimension (millimetre, square millimetre,
//! newton, newton per square millimetre). Arithmetic only exists between
//! dimensionally compatible operands and produces the dimensionally correct
//! result type. An `Area` is never negative; constructing one from a
//! negative magnitude is a recoverable `InvalidQuantity` error.
//!
//! The derived `==` on these types compares stored representations; value
//! equality (equal magnitudes in the canonical unit, however represented)
//! is `eq_val`.

use vstd::prelude::*;

use crate::error::CalcError;
use crate::rational::{
    in_prod_range, lemma_mul_nonneg, lemma_pos_mul_pos, rat_add, rat_div, rat_eq, rat_le, rat_lt,
    rat_mul, rat_of_int, rat_sub, rat_wf, RatModel, Rational,
};
use crate::unit::{ForceUnit, LengthUnit};

verus! {

/// Magnitude `m` given in `u`, normalized to millimetres.
pub open spec fn length_canonical(m: RatModel, u: LengthUnit) -> RatModel {
    RatModel { num: m.num * u.rate_spec(), den: m.den }
}

/// Canonical magnitude `c` (millimetres) re-expressed in `u`.
pub open spec fn length_reading(c: RatModel, u: LengthUnit) -> RatModel {
    RatModel { num: c.num, den: c.den * u.rate_spec() }
}

/// Magnitude `m` given in `u` squared, normalized to square millimetres.
pub open spec fn area_canonical(m: RatModel, u: LengthUnit) -> RatModel {
    RatModel { num: m.num * u.area_rate_spec(), den: m.den }
}

/// Canonical magnitude `c` (square millimetres) re-expressed in `u` squared.
pub open spec fn area_reading(c: RatModel, u: LengthUnit) -> RatModel {
    RatModel { num: c.num, den: c.den * u.area_rate_spec() }
}

/// Magnitude `m` given in `u`, normalized to newtons.
pub open spec fn force_canonical(m: RatModel, u: ForceUnit) -> RatModel {
    RatModel { num: m.num * u.rate_spec(), den: m.den }
}

/// Canonical magnitude `c` (newtons) re-expressed in `u`.
pub open spec fn force_reading(c: RatModel, u: ForceUnit) -> RatModel {
    RatModel { num: c.num, den: c.den * u.rate_spec() }
}

/// Magnitude `m` given in `fu` per `lu` squared, normalized to newtons per
/// square millimetre.
pub open spec fn stress_canonical(m: RatModel, fu: ForceUnit, lu: LengthUnit) -> RatModel {
    RatModel { num: m.num * fu.rate_spec(), den: m.den * lu.area_rate_spec() }
}

/// Canonical magnitude `c` (newtons per square millimetre) re-expressed in
/// `fu` per `lu` squared.
pub open spec fn stress_reading(c: RatModel, fu: ForceUnit, lu: LengthUnit) -> RatModel {
    RatModel { num: c.num * lu.area_rate_spec(), den: c.den * fu.rate_spec() }
}

/// Machine limit on length and area magnitudes the capacity checks accept:
/// at most a billion canonical units, with at most thousandth precision.
/// Keeps every cross product of the checks inside `i128`.
pub open spec fn len_bounded(a: RatModel) -> bool {
    -1_000_000_000 <= a.num <= 1_000_000_000 && 1 <= a.den <= 1000
}

/// Machine limit on force magnitudes (newtons) the capacity checks accept.
pub open spec fn force_bounded(a: RatModel) -> bool {
    -1_000_000_000_000 <= a.num <= 1_000_000_000_000 && 1 <= a.den <= 1000
}

/// Machine limit on stress magnitudes (newtons per square millimetre) the
/// capacity checks accept; wide enough for every catalog stress.
pub open spec fn stress_bounded(a: RatModel) -> bool {
    -1000 <= a.num <= 1000 && 1 <= a.den <= 10
}

/// A length, stored as an exact number of millimetres. May be negative
/// (gauge offsets are signed).
#[derive(Clone, Copy, Debug, PartialEq, Eq, Structural)]
pub struct Length {
    v: Rational,
}

impl View for Length {
    type V = RatModel;

    closed spec fn view(&self) -> RatModel {
        self.v@
    }
}

impl Length {
    pub open spec fn wf(&self) -> bool {
        rat_wf(self@)
    }

    pub fn new(value: Rational, unit: LengthUnit) -> (r: Self)
        requires
            value.wf(),
            in_prod_range(value@.num * unit.rate_spec()),
        ensures
            r@ == length_canonical(value@, unit),
            r.wf(),
    {
        Length { v: Rational::new(value.num * unit.rate(), value.den) }
    }

    pub fn get_value_in(&self, unit: LengthUnit) -> (r: Rational)
        requires
            self.wf(),
            in_prod_range(self@.den * unit.rate_spec()),
        ensures
            r@ == length_reading(self@, unit),
            r.wf(),
    {
        proof {
            lemma_pos_mul_pos(self@.den, unit.rate_spec());
        }
        Rational::new(self.v.num, self.v.den * unit.rate())
    }

    pub fn add(self, rhs: Self) -> (r: Self)
        requires
            self.wf(),
            rhs.wf(),
            in_prod_range(self@.num * rhs@.den),
            in_prod_range(rhs@.num * self@.den),
            in_prod_range(self@.den * rhs@.den),
        ensures
            r@ == rat_add(self@, rhs@),
            r.wf(),
    {
        Length { v: self.v.add(rhs.v) }
    }

    pub fn sub(self, rhs: Self) -> (r: Self)
        requires
            self.wf(),
            rhs.wf(),
            in_prod_range(self@.num * rhs@.den),
            in_prod_range(rhs@.num * self@.den),
            in_prod_range(self@.den * rhs@.den),
        ensures
            r@ == rat_sub(self@, rhs@),
            r.wf(),
    {
        Length { v: self.v.sub(rhs.v) }
    }

    /// Length scaled by an integer count.
    pub fn mul_int(self, n: i128) -> (r: Self)
        requires
            self.wf(),
            in_prod_range(self@.num * n),
            in_prod_range(self@.den),
        ensures
            r@ == rat_mul(self@, rat_of_int(n as int)),
            r.wf(),
    {
        Length { v: self.v.mul(Rational::from_int(n)) }
    }

    /// Length scaled by an exact rational factor.
    pub fn mul_rat(self, k: Rational) -> (r: Self)
        requires
            self.wf(),
            k.wf(),
            in_prod_range(self@.num * k@.num),
            in_prod_range(self@.den * k@.den),
        ensures
            r@ == rat_mul(self@, k@),
            r.wf(),
    {
        Length { v: self.v.mul(k) }
    }

    /// Length times length is an area; fails with `InvalidQuantity` when the
    /// product is negative.
    pub fn mul_len(self, rhs: Self) -> (r: Result<Area, CalcError>)
        requires
            self.wf(),
            rhs.wf(),
            in_prod_range(self@.num * rhs@.num),
            in_prod_range(self@.den * rhs@.den),
        ensures
            match r {
                Ok(a) => self@.num * rhs@.num >= 0 && a@ == rat_mul(self@, rhs@) && a.wf(),
                Err(e) => self@.num * rhs@.num < 0 && e == CalcError::InvalidQuantity,
            },
    {
        let p = self.v.mul(rhs.v);
        if p.num >= 0 {
            Ok(Area { v: p })
        } else {
            Err(CalcError::InvalidQuantity)
        }
    }

    pub fn le(&self, rhs: &Self) -> (r: bool)
        requires
            self.wf(),
            rhs.wf(),
            in_prod_range(self@.num * rhs@.den),
            in_prod_range(rhs@.num * self@.den),
        ensures
            r == rat_le(self@, rhs@),
    {
        self.v.le(&rhs.v)
    }

    pub fn lt(&self, rhs: &Self) -> (r: bool)
        requires
            self.wf(),
            rhs.wf(),
            in_prod_range(self@.num * rhs@.den),
            in_prod_range(rhs@.num * self@.den),
        ensures
            r == rat_lt(self@, rhs@),
    {
        self.v.lt(&rhs.v)
    }

    /// Value equality: equal magnitudes in the canonical unit.
    pub fn eq_val(&self, rhs: &Self) -> (r: bool)
        requires
            self.wf(),
            rhs.wf(),
            in_prod_range(self@.num * rhs@.den),
            in_prod_range(rhs@.num * self@.den),
        ensures
            r == rat_eq(self@, rhs@),
    {
        self.v.eq_rat(&rhs.v)
    }

    /// The smaller of two lengths by canonical magnitude.
    pub fn min(self, rhs: Self) -> (r: Self)
        requires
            self.wf(),
            rhs.wf(),
            in_prod_range(self@.num * rhs@.den),
            in_prod_range(rhs@.num * self@.den),
        ensures
            r == (if rat_le(self@, rhs@) {
                self
            } else {
                rhs
            }),
            rat_le(r@, self@),
            rat_le(r@, rhs@),
            r.wf(),
    {
        if self.v.le(&rhs.v) {
            self
        } else {
            rhs
        }
    }
}

/// An area, stored as an exact number of square millimetres; never negative.
#[derive(Clone, Copy, Debug, PartialEq, Eq, Structural)]
pub struct Area {
    v: Rational,
}

impl View for Area {
    type V = RatModel;

    closed spec fn view(&self) -> RatModel {
        self.v@
    }
}

impl Area {
    pub open spec fn wf(&self) -> bool {
        rat_wf(self@) && self@.num >= 0
    }

    /// Fails with `InvalidQuantity` if and only if the magnitude is negative.
    pub fn new(value: Rational, unit: LengthUnit) -> (r: Result<Self, CalcError>)
        requires
            value.wf(),
            in_prod_range(value@.num * unit.area_rate_spec()),
        ensures
            match r {
                Ok(a) => value@.num >= 0 && a@ == area_canonical(value@, unit) && a.wf(),
                Err(e) => value@.num < 0 && e == CalcError::InvalidQuantity,
            },
    {
        if value.num < 0 {
            Err(CalcError::InvalidQuantity)
        } else {
            proof {
                lemma_mul_nonneg(value@.num, unit.area_rate_spec());
            }
            Ok(Area { v: Rational::new(value.num * unit.area_rate(), value.den) })
        }
    }

    pub fn get_value_in(&self, unit: LengthUnit) -> (r: Rational)
        requires
            self.wf(),
            in_prod_range(self@.den * unit.area_rate_spec()),
        ensures
            r@ == area_reading(self@, unit),
            r.wf(),
    {
        proof {
            lemma_pos_mul_pos(self@.den, unit.area_rate_spec());
        }
        Rational::new(self.v.num, self.v.den * unit.area_rate())
    }

    pub fn add(self, rhs: Self) -> (r: Self)
        requires
            self.wf(),
            rhs.wf(),
            in_prod_range(self@.num * rhs@.den),
            in_prod_range(rhs@.num * self@.den),
            in_prod_range(self@.den * rhs@.den),
        ensures
            r@ == rat_add(self@, rhs@),
            r.wf(),
    {
        proof {
            lemma_mul_nonneg(self@.num, rhs@.den);
            lemma_mul_nonneg(rhs@.num, self@.den);
            lemma_pos_mul_pos(self@.den, rhs@.den);
        }
        Area { v: self.v.add(rhs.v) }
    }

    /// Area subtraction; fails with `InvalidQuantity` if and only if the
    /// subtrahend exceeds the minuend.
    pub fn sub(self, rhs: Self) -> (r: Result<Self, CalcError>)
        requires
            self.wf(),
            rhs.wf(),
            in_prod_range(self@.num * rhs@.den),
            in_prod_range(rhs@.num * self@.den),
            in_prod_range(self@.den * rhs@.den),
        ensures
            match r {
                Ok(a) => rat_le(rhs@, self@) && a@ == rat_sub(self@, rhs@) && a.wf(),
                Err(e) => !rat_le(rhs@, self@) && e == CalcError::InvalidQuantity,
            },
    {
        let d = self.v.sub(rhs.v);
        if d.num >= 0 {
            Ok(Area { v: d })
        } else {
            Err(CalcError::InvalidQuantity)
        }
    }

    /// Area scaled by a non-negative integer count.
    pub fn mul_int(self, n: i128) -> (r: Self)
        requires
            self.wf(),
            n >= 0,
            in_prod_range(self@.num * n),
            in_prod_range(self@.den),
        ensures
            r@ == rat_mul(self@, rat_of_int(n as int)),
            r.wf(),
    {
        proof {
            lemma_mul_nonneg(self@.num, n as int);
        }
        Area { v: self.v.mul(Rational::from_int(n)) }
    }

    pub fn is_zero(&self) -> (r: bool)
        ensures
            r == (self@.num == 0),
    {
        self.v.num == 0
    }

    /// Area times stress is a force.
    pub fn mul_stress(self, s: Stress) -> (r: Force)
        requires
            self.wf(),
            s.wf(),
            in_prod_range(self@.num * s@.num),
            in_prod_range(self@.den * s@.den),
        ensures
            r@ == rat_mul(self@, s@),
            r.wf(),
    {
        Force { v: self.v.mul(s.v) }
    }

    pub fn le(&self, rhs: &Self) -> (r: bool)
        requires
            self.wf(),
            rhs.wf(),
            in_prod_range(self@.num * rhs@.den),
            in_prod_range(rhs@.num * self@.den),
        ensures
            r == rat_le(self@, rhs@),
    {
        self.v.le(&rhs.v)
    }

    pub fn lt(&self, rhs: &Self) -> (r: bool)
        requires
            self.wf(),
            rhs.wf(),
            in_prod_range(self@.num * rhs@.den),
            in_prod_range(rhs@.num * self@.den),
        ensures
            r == rat_lt(self@, rhs@),
    {
        self.v.lt(&rhs.v)
    }

    /// Value equality: equal magnitudes in the canonical unit.
    pub fn eq_val(&self, rhs: &Self) -> (r: bool)
        requires
            self.wf(),
            rhs.wf(),
            in_prod_range(self@.num * rhs@.den),
            in_prod_range(rhs@.num * self@.den),
        ensures
            r == rat_eq(self@, rhs@),
    {
        self.v.eq_rat(&rhs.v)
    }

    /// The zero area.
    pub fn zero() -> (r: Self)
        ensures
            r@ == rat_of_int(0),
            r.wf(),
    {
        Area { v: Rational::from_int(0) }
    }
}

/// A force, stored as an exact number of newtons. May be negative.
#[derive(Clone, Copy, Debug, PartialEq, Eq, Structural)]
pub struct Force {
    v: Rational,
}

impl View for Force {
    type V = RatModel;

    closed spec fn view(&self) -> RatModel {
        self.v@
    }
}

impl Force {
    pub open spec fn wf(&self) -> bool {
        rat_wf(self@)
    }

    pub fn new(value: Rational, unit: ForceUnit) -> (r: Self)
        requires
            value.wf(),
            in_prod_range(value@.num * unit.rate_spec()),
        ensures
            r@ == force_canonical(value@, unit),
            r.wf(),
    {
        Force { v: Rational::new(value.num * unit.rate(), value.den) }
    }

    pub fn get_value_in(&self, unit: ForceUnit) -> (r: Rational)
        requires
            self.wf(),
            in_prod_range(self@.den * unit.rate_spec()),
        ensures
            r@ == force_reading(self@, unit),
            r.wf(),
    {
        proof {
            lemma_pos_mul_pos(self@.den, unit.rate_spec());
        }
        Rational::new(self.v.num, self.v.den * unit.rate())
    }

    pub fn is_zero(&self) -> (r: bool)
        ensures
            r == (self@.num == 0),
    {
        self.v.num == 0
    }

    /// Force scaled by an exact rational factor.
    pub fn mul_rat(self, k: Rational) -> (r: Self)
        requires
            self.wf(),
            k.wf(),
            in_prod_range(self@.num * k@.num),
            in_prod_range(self@.den * k@.den),
        ensures
            r@ == rat_mul(self@, k@),
            r.wf(),
    {
        Force { v: self.v.mul(k) }
    }

    /// Force scaled by an integer count.
    pub fn mul_int(self, n: i128) -> (r: Self)
        requires
            self.wf(),
            in_prod_range(self@.num * n),
            in_prod_range(self@.den),
        ensures
            r@ == rat_mul(self@, rat_of_int(n as int)),
            r.wf(),
    {
        Force { v: self.v.mul(Rational::from_int(n)) }
    }

    /// Value equality: equal magnitudes in the canonical unit.
    pub fn eq_val(&self, rhs: &Self) -> (r: bool)
        requires
            self.wf(),
            rhs.wf(),
            in_prod_range(self@.num * rhs@.den),
            in_prod_range(rhs@.num * self@.den),
        ensures
            r == rat_eq(self@, rhs@),
    {
        self.v.eq_rat(&rhs.v)
    }

    /// Force divided by a (strictly positive) area is a stress.
    pub fn div_area(self, a: Area) -> (r: Stress)
        requires
            self.wf(),
            a.wf(),
            a@.num != 0,
            in_prod_range(a@.num),
            in_prod_range(self@.num * a@.den),
            in_prod_range(self@.den * a@.num),
        ensures
            r@ == rat_div(self@, a@),
            r.wf(),
    {
        Stress { v: self.v.div(a.v) }
    }

    /// The dimensionless ratio of two forces.
    pub fn div_force(self, rhs: Force) -> (r: Rational)
        requires
            self.wf(),
            rhs.wf(),
            rhs@.num != 0,
            in_prod_range(rhs@.num),
            in_prod_range(self@.num * rhs@.den),
            in_prod_range(self@.den * rhs@.num),
        ensures
            r@ == rat_div(self@, rhs@),
            r.wf(),
    {
        self.v.div(rhs.v)
    }
}

/// A stress, stored as an exact number of newtons per square millimetre.
#[derive(Clone, Copy, Debug, PartialEq, Eq, Structural)]
pub struct Stress {
    v: Rational,
}

impl View for Stress {
    type V = RatModel;

    closed spec fn view(&self) -> RatModel {
        self.v@
    }
}

impl Stress {
    pub open spec fn wf(&self) -> bool {
        rat_wf(self@)
    }

    pub fn new(value: Rational, fu: ForceUnit, lu: LengthUnit) -> (r: Self)
        requires
            value.wf(),
            in_prod_range(value@.num * fu.rate_spec()),
            in_prod_range(value@.den * lu.area_rate_spec()),
        ensures
            r@ == stress_canonical(value@, fu, lu),
            r.wf(),
    {
        proof {
            lemma_pos_mul_pos(value@.den, lu.area_rate_spec());
        }
        Stress { v: Rational::new(value.num * fu.rate(), value.den * lu.area_rate()) }
    }

    pub fn get_value_in(&self, fu: ForceUnit, lu: LengthUnit) -> (r: Rational)
        requires
            self.wf(),
            in_prod_range(self@.num * lu.area_rate_spec()),
            in_prod_range(self@.den * fu.rate_spec()),
        ensures
            r@ == stress_reading(self@, fu, lu),
            r.wf(),
    {
        proof {
            lemma_pos_mul_pos(self@.den, fu.rate_spec());
        }
        Rational::new(self.v.num * lu.area_rate(), self.v.den * fu.rate())
    }

    /// Value equality: equal magnitudes in the canonical unit.
    pub fn eq_val(&self, rhs: &Self) -> (r: bool)
        requires
            self.wf(),
            rhs.wf(),
            in_prod_range(self@.num * rhs@.den),
            in_prod_range(rhs@.num * self@.den),
        ensures
            r == rat_eq(self@, rhs@),
    {
        self.v.eq_rat(&rhs.v)
    }

    /// The dimensionless ratio of two stresses.
    pub fn div_stress(self, rhs: Stress) -> (r: Rational)
        requires
            self.wf(),
            rhs.wf(),
            rhs@.num != 0,
            in_prod_range(rhs@.num),
            in_prod_range(self@.num * rhs@.den),
            in_prod_range(self@.den * rhs@.num),
        ensures
            r@ == rat_div(self@, rhs@),
            r.wf(),
    {
        self.v.div(rhs.v)
    }
}


/// Round-trip law: a length magnitude stored in any unit reads back as the
/// same value in that unit.
pub proof fn lemma_length_round_trip(m: RatModel, u: LengthUnit)
    requires
        rat_wf(m),
    ensures
        rat_eq(length_reading(length_canonical(m, u), u), m),
{
    let r = u.rate_spec();
    assert((m.num * r) * m.den == m.num * (m.den * r)) by (nonlinear_arith);
}

/// Round-trip law for areas.
pub proof fn lemma_area_round_trip(m: RatModel, u: LengthUnit)
    requires
        rat_wf(m),
    ensures
        rat_eq(area_reading(area_canonical(m, u), u), m),
{
    let r = u.area_rate_spec();
    assert((m.num * r) * m.den == m.num * (m.den * r)) by (nonlinear_arith);
}

/// Round-trip law for forces.
pub proof fn lemma_force_round_trip(m: RatModel, u: ForceUnit)
    requires
        rat_wf(m),
    ensures
        rat_eq(force_reading(force_canonical(m, u), u), m),
{
    let r = u.rate_spec();
    assert((m.num * r) * m.den == m.num * (m.den * r)) by (nonlinear_arith);
}

/// Round-trip law for stresses.
pub proof fn lemma_stress_round_trip(m: RatModel, fu: ForceUnit, lu: LengthUnit)
    requires
        rat_wf(m),
    ensures
        rat_eq(stress_reading(stress_canonical(m, fu, lu), fu, lu), m),
{
    let f = fu.rate_spec();
    let l2 = lu.area_rate_spec();
    assert(((m.num * f) * l2) * m.den == m.num * ((m.den * l2) * f)) by (nonlinear_arith);
}

/// Cross-unit consistency law: a length stored in `u1` and read in `u2` is
/// the magnitude scaled by exactly the ratio of the two unit rates.
pub proof fn lemma_length_cross_unit(m: RatModel, u1: LengthUnit, u2: LengthUnit)
    ensures
        length_reading(length_canonical(m, u1), u2) == rat_mul(
            m,
            RatModel { num: u1.rate_spec(), den: u2.rate_spec() },
        ),
{
}

/// Cross-unit consistency law for areas, over the squared rates.
pub proof fn lemma_area_cross_unit(m: RatModel, u1: LengthUnit, u2: LengthUnit)
    ensures
        area_reading(area_canonical(m, u1), u2) == rat_mul(
            m,
            RatModel { num: u1.area_rate_spec(), den: u2.area_rate_spec() },
        ),
{
}

/// Dimensional correctness law: the product of two lengths given in one
/// unit equals, as a value, the area of the product magnitude on that
/// unit's squared basis.
pub proof fn lemma_length_mul_area(m1: RatModel, m2: RatModel, u: LengthUnit)
    ensures
        rat_eq(
            rat_mul(length_canonical(m1, u), length_canonical(m2, u)),
            area_canonical(rat_mul(m1, m2), u),
        ),
{
    let r = u.rate_spec();
    assert(((m1.num * r) * (m2.num * r)) * (m1.den * m2.den) == ((m1.num * m2.num) * (r * r)) * (
    m1.den * m2.den)) by (nonlinear_arith);
}

} // verus!
