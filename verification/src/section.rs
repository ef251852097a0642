//! Section profile catalog: T-shaped (cut-T) shapes, angle shapes and
//! channel shapes, with their cross-sectional constants, gauge lists and
//! outline polylines.
//!
//! A gauge list is the ordered set of transverse bolt-line offsets from the
//! section centerline, from the most positive to the most negative offset;
//! its length is the bolt column count. A profile whose gauge table has no
//! entry yields `UnsupportedConfiguration` from the gauge-dependent
//! derivations.

use vstd::prelude::*;

use crate::error::CalcError;
use crate::rational::{
    lemma_mul_bound, rat_div, rat_neg, rat_of_int, rat_sub, RatModel, Rational,
};
use crate::text::str_eq;
use crate::unit::LengthUnit;
use crate::value::{area_canonical, length_reading, Area, Length};

verus! {

/// Element-wise match between a list of lengths and its mathematical model.
pub open spec fn gauge_ok(s: Seq<Length>, m: Seq<RatModel>) -> bool {
    s.len() == m.len() && (forall|i: int| 0 <= i < s.len() ==> (#[trigger] s[i])@ == m[i] && s[i].wf())
}

/// An open polyline: a start vertex followed by the remaining vertices, with
/// exact rational coordinates.
pub struct Polyline {
    pub start_point: (Rational, Rational),
    pub next_points: Vec<(Rational, Rational)>,
}

/// Element-wise match between a polyline and its model, the full vertex
/// sequence (start vertex included).
pub open spec fn poly_ok(p: Polyline, m: Seq<(RatModel, RatModel)>) -> bool {
    &&& m.len() >= 2
    &&& p.start_point.0@ == m[0].0
    &&& p.start_point.1@ == m[0].1
    &&& p.next_points@.len() == m.len() - 1
    &&& forall|i: int|
        0 <= i < p.next_points@.len() ==> (#[trigger] p.next_points@[i]).0@ == m[i + 1].0
            && p.next_points@[i].1@ == m[i + 1].1
}

impl Polyline {
    pub fn new(points: Vec<(Rational, Rational)>) -> (r: Polyline)
        requires
            points@.len() >= 2,
        ensures
            r.start_point == points@[0],
            r.next_points@ == points@.subrange(1, points@.len() as int),
    {
        let start = points[0];
        let mut rest: Vec<(Rational, Rational)> = Vec::new();
        let mut i: usize = 1;
        while i < points.len()
            invariant
                1 <= i <= points@.len(),
                points@.len() >= 2,
                rest@ == points@.subrange(1, i as int),
            decreases points@.len() - i,
        {
            rest.push(points[i]);
            proof {
                assert(points@.subrange(1, i + 1 as int) =~= points@.subrange(1, i as int).push(
                    points@[i as int],
                ));
            }
            i += 1;
        }
        Polyline { start_point: start, next_points: rest }
    }
}

/// Gauge offsets of the cut-T gauge table, keyed by the section breadth in
/// millimetres; `None` when the table has no entry for the breadth.
pub open spec fn ct_gauge_model(b_mm: int) -> Option<Seq<RatModel>> {
    if b_mm == 100 {
        Some(seq![rat_of_int(30), rat_of_int(-30)])
    } else if b_mm == 125 {
        Some(seq![RatModel { num: 75, den: 2 }, RatModel { num: -75, den: 2 }])
    } else if b_mm == 150 {
        Some(seq![rat_of_int(45), rat_of_int(-45)])
    } else if b_mm == 175 {
        Some(seq![RatModel { num: 105, den: 2 }, RatModel { num: -105, den: 2 }])
    } else if b_mm == 200 {
        Some(seq![rat_of_int(60), rat_of_int(-60)])
    } else if b_mm == 250 {
        Some(seq![rat_of_int(75), rat_of_int(-75)])
    } else if b_mm == 300 {
        Some(seq![rat_of_int(115), rat_of_int(75), rat_of_int(-75), rat_of_int(-115)])
    } else if b_mm == 350 {
        Some(seq![rat_of_int(140), rat_of_int(70), rat_of_int(-70), rat_of_int(-140)])
    } else if b_mm == 400 {
        Some(seq![rat_of_int(160), rat_of_int(70), rat_of_int(-70), rat_of_int(-160)])
    } else {
        None
    }
}

/// The cut-T gauge table. Fails with `UnsupportedConfiguration` if and only
/// if the table has no entry for the breadth.
pub fn ct_gauge_offsets(b_mm: i128) -> (r: Result<Vec<Length>, CalcError>)
    ensures
        match r {
            Ok(v) => ct_gauge_model(b_mm as int) is Some && gauge_ok(
                v@,
                ct_gauge_model(b_mm as int)->Some_0,
            ),
            Err(e) => ct_gauge_model(b_mm as int) is None && e
                == CalcError::UnsupportedConfiguration,
        },
{
    let mut v: Vec<Length> = Vec::new();
    if b_mm == 100 {
        v.push(Length::new(Rational::from_int(30), LengthUnit::MilliMeter));
        v.push(Length::new(Rational::from_int(-30), LengthUnit::MilliMeter));
    } else if b_mm == 125 {
        v.push(Length::new(Rational::new(75, 2), LengthUnit::MilliMeter));
        v.push(Length::new(Rational::new(-75, 2), LengthUnit::MilliMeter));
    } else if b_mm == 150 {
        v.push(Length::new(Rational::from_int(45), LengthUnit::MilliMeter));
        v.push(Length::new(Rational::from_int(-45), LengthUnit::MilliMeter));
    } else if b_mm == 175 {
        v.push(Length::new(Rational::new(105, 2), LengthUnit::MilliMeter));
        v.push(Length::new(Rational::new(-105, 2), LengthUnit::MilliMeter));
    } else if b_mm == 200 {
        v.push(Length::new(Rational::from_int(60), LengthUnit::MilliMeter));
        v.push(Length::new(Rational::from_int(-60), LengthUnit::MilliMeter));
    } else if b_mm == 250 {
        v.push(Length::new(Rational::from_int(75), LengthUnit::MilliMeter));
        v.push(Length::new(Rational::from_int(-75), LengthUnit::MilliMeter));
    } else if b_mm == 300 {
        v.push(Length::new(Rational::from_int(115), LengthUnit::MilliMeter));
        v.push(Length::new(Rational::from_int(75), LengthUnit::MilliMeter));
        v.push(Length::new(Rational::from_int(-75), LengthUnit::MilliMeter));
        v.push(Length::new(Rational::from_int(-115), LengthUnit::MilliMeter));
    } else if b_mm == 350 {
        v.push(Length::new(Rational::from_int(140), LengthUnit::MilliMeter));
        v.push(Length::new(Rational::from_int(70), LengthUnit::MilliMeter));
        v.push(Length::new(Rational::from_int(-70), LengthUnit::MilliMeter));
        v.push(Length::new(Rational::from_int(-140), LengthUnit::MilliMeter));
    } else if b_mm == 400 {
        v.push(Length::new(Rational::from_int(160), LengthUnit::MilliMeter));
        v.push(Length::new(Rational::from_int(70), LengthUnit::MilliMeter));
        v.push(Length::new(Rational::from_int(-70), LengthUnit::MilliMeter));
        v.push(Length::new(Rational::from_int(-160), LengthUnit::MilliMeter));
    } else {
        return Err(CalcError::UnsupportedConfiguration);
    }
    Ok(v)
}

/// Cut-T (T-shaped) rolled sections.
#[derive(Clone, Copy, Debug, PartialEq, Eq, Structural)]
pub enum CTSteel {
    Ct100x200x8x12,
    Ct125x250x9x14,
}

impl CTSteel {
    pub open spec fn name_spec(self) -> Seq<char> {
        match self {
            CTSteel::Ct100x200x8x12 => "CT-100x200x8x12"@,
            CTSteel::Ct125x250x9x14 => "CT-125x250x9x14"@,
        }
    }

    /// Depth, millimetres.
    pub open spec fn h_spec(self) -> int {
        match self {
            CTSteel::Ct100x200x8x12 => 100,
            CTSteel::Ct125x250x9x14 => 125,
        }
    }

    /// Breadth, millimetres.
    pub open spec fn b_spec(self) -> int {
        match self {
            CTSteel::Ct100x200x8x12 => 200,
            CTSteel::Ct125x250x9x14 => 250,
        }
    }

    /// Web thickness, millimetres.
    pub open spec fn tw_spec(self) -> int {
        match self {
            CTSteel::Ct100x200x8x12 => 8,
            CTSteel::Ct125x250x9x14 => 9,
        }
    }

    /// Flange thickness, millimetres.
    pub open spec fn tf_spec(self) -> int {
        match self {
            CTSteel::Ct100x200x8x12 => 12,
            CTSteel::Ct125x250x9x14 => 14,
        }
    }

    /// Cross-sectional area: `h * tf + (b - tf) * tw`, square millimetres.
    pub open spec fn area_spec(self) -> int {
        self.h_spec() * self.tf_spec() + (self.b_spec() - self.tf_spec()) * self.tw_spec()
    }

    pub open spec fn gauge_model(self) -> Seq<RatModel> {
        ct_gauge_model(self.b_spec())->Some_0
    }

    /// Catalog lookup by name; `None` if and only if no entry has the name.
    pub fn from_str(name: &str) -> (r: Option<Self>)
        ensures
            match r {
                Some(s) => s.name_spec() == name@,
                None => name@ != "CT-100x200x8x12"@ && name@ != "CT-125x250x9x14"@,
            },
    {
        if str_eq(name, "CT-100x200x8x12") {
            Some(CTSteel::Ct100x200x8x12)
        } else if str_eq(name, "CT-125x250x9x14") {
            Some(CTSteel::Ct125x250x9x14)
        } else {
            None
        }
    }

    /// Every catalog entry, in catalog order.
    pub fn iter() -> (r: Vec<Self>)
        ensures
            r@ =~= seq![CTSteel::Ct100x200x8x12, CTSteel::Ct125x250x9x14],
    {
        let mut v: Vec<CTSteel> = Vec::new();
        v.push(CTSteel::Ct100x200x8x12);
        v.push(CTSteel::Ct125x250x9x14);
        v
    }

    pub fn name(&self) -> (r: &'static str)
        ensures
            r@ == self.name_spec(),
    {
        match self {
            CTSteel::Ct100x200x8x12 => "CT-100x200x8x12",
            CTSteel::Ct125x250x9x14 => "CT-125x250x9x14",
        }
    }

    pub fn h(&self) -> (r: Length)
        ensures
            r@ == rat_of_int(self.h_spec()),
            r.wf(),
    {
        match self {
            CTSteel::Ct100x200x8x12 => Length::new(Rational::from_int(100), LengthUnit::MilliMeter),
            CTSteel::Ct125x250x9x14 => Length::new(Rational::from_int(125), LengthUnit::MilliMeter),
        }
    }

    pub fn b(&self) -> (r: Length)
        ensures
            r@ == rat_of_int(self.b_spec()),
            r.wf(),
    {
        match self {
            CTSteel::Ct100x200x8x12 => Length::new(Rational::from_int(200), LengthUnit::MilliMeter),
            CTSteel::Ct125x250x9x14 => Length::new(Rational::from_int(250), LengthUnit::MilliMeter),
        }
    }

    pub fn tw(&self) -> (r: Length)
        ensures
            r@ == rat_of_int(self.tw_spec()),
            r.wf(),
    {
        match self {
            CTSteel::Ct100x200x8x12 => Length::new(Rational::from_int(8), LengthUnit::MilliMeter),
            CTSteel::Ct125x250x9x14 => Length::new(Rational::from_int(9), LengthUnit::MilliMeter),
        }
    }

    pub fn tf(&self) -> (r: Length)
        ensures
            r@ == rat_of_int(self.tf_spec()),
            r.wf(),
    {
        match self {
            CTSteel::Ct100x200x8x12 => Length::new(Rational::from_int(12), LengthUnit::MilliMeter),
            CTSteel::Ct125x250x9x14 => Length::new(Rational::from_int(14), LengthUnit::MilliMeter),
        }
    }

    /// Cross-sectional area `h * tf + (b - tf) * tw`.
    pub fn area(&self) -> (r: Area)
        ensures
            r@ == rat_of_int(self.area_spec()),
            r.wf(),
    {
        let h = self.h();
        let b = self.b();
        let tw = self.tw();
        let tf = self.tf();
        let first = match h.mul_len(tf) {
            Ok(a) => a,
            Err(_) => {
                proof {
                    assert(false);
                }
                Area::zero()
            },
        };
        let web_width = b.sub(tf);
        let second = match web_width.mul_len(tw) {
            Ok(a) => a,
            Err(_) => {
                proof {
                    assert(false);
                }
                Area::zero()
            },
        };
        first.add(second)
    }

    /// Bolt-line offsets from the cut-T gauge table for this breadth.
    pub fn gauge_list(&self) -> (r: Vec<Length>)
        ensures
            gauge_ok(r@, self.gauge_model()),
    {
        let b_mm: i128 = match self {
            CTSteel::Ct100x200x8x12 => 200,
            CTSteel::Ct125x250x9x14 => 250,
        };
        match ct_gauge_offsets(b_mm) {
            Ok(v) => v,
            Err(_) => {
                proof {
                    assert(false);
                }
                Vec::new()
            },
        }
    }

    pub fn thickness(&self) -> (r: Length)
        ensures
            r@ == rat_of_int(self.tf_spec()),
            r.wf(),
    {
        self.tf()
    }

    pub fn breadth(&self) -> (r: Length)
        ensures
            r@ == rat_of_int(self.b_spec()),
            r.wf(),
    {
        self.b()
    }

    /// Outline vertices in `u`: the half profile of the T, flange first.
    pub open spec fn shape_model(self, u: LengthUnit) -> Seq<(RatModel, RatModel)> {
        let h = length_reading(rat_of_int(self.h_spec()), u);
        let b = length_reading(rat_of_int(self.b_spec()), u);
        let tw = length_reading(rat_of_int(self.tw_spec()), u);
        let tf = length_reading(rat_of_int(self.tf_spec()), u);
        let b2 = rat_div(b, rat_of_int(2));
        let tw2 = rat_div(tw, rat_of_int(2));
        let z = rat_of_int(0);
        seq![
            (z, b2),
            (tf, b2),
            (tf, tw2),
            (h, tw2),
            (h, rat_neg(tw2)),
            (tf, rat_neg(tw2)),
            (tf, rat_neg(b2)),
            (z, rat_neg(b2)),
        ]
    }

    pub fn shape_in(&self, u: LengthUnit) -> (r: Polyline)
        ensures
            poly_ok(r, self.shape_model(u)),
    {
        let zero = Rational::from_int(0);
        let two = Rational::from_int(2);
        let h = self.h().get_value_in(u);
        let b = self.b().get_value_in(u);
        let tw = self.tw().get_value_in(u);
        let tf = self.tf().get_value_in(u);
        let b2 = b.div(two);
        let tw2 = tw.div(two);
        let nb2 = b2.neg();
        let ntw2 = tw2.neg();
        let mut rest: Vec<(Rational, Rational)> = Vec::new();
        rest.push((tf, b2));
        rest.push((tf, tw2));
        rest.push((h, tw2));
        rest.push((h, ntw2));
        rest.push((tf, ntw2));
        rest.push((tf, nb2));
        rest.push((zero, nb2));
        Polyline { start_point: (zero, b2), next_points: rest }
    }

    pub fn shape_in_m(&self) -> (r: Polyline)
        ensures
            poly_ok(r, self.shape_model(LengthUnit::Meter)),
    {
        self.shape_in(LengthUnit::Meter)
    }

    pub fn shape_in_mm(&self) -> (r: Polyline)
        ensures
            poly_ok(r, self.shape_model(LengthUnit::MilliMeter)),
    {
        self.shape_in(LengthUnit::MilliMeter)
    }
}

impl Default for CTSteel {
    fn default() -> (r: Self)
        ensures
            r == CTSteel::Ct100x200x8x12,
    {
        CTSteel::Ct100x200x8x12
    }
}

/// Equal-leg angle sections.
#[derive(Clone, Copy, Debug, PartialEq, Eq, Structural)]
pub enum AngleSteel {
    L80x80x6,
    L100x100x10,
}

impl AngleSteel {
    pub open spec fn name_spec(self) -> Seq<char> {
        match self {
            AngleSteel::L80x80x6 => "L-80x80x6"@,
            AngleSteel::L100x100x10 => "L-100x100x10"@,
        }
    }

    /// First leg length, millimetres.
    pub open spec fn a_spec(self) -> int {
        match self {
            AngleSteel::L80x80x6 => 80,
            AngleSteel::L100x100x10 => 100,
        }
    }

    /// Second leg length, millimetres.
    pub open spec fn b_spec(self) -> int {
        match self {
            AngleSteel::L80x80x6 => 80,
            AngleSteel::L100x100x10 => 100,
        }
    }

    /// Leg thickness, millimetres.
    pub open spec fn t_spec(self) -> int {
        match self {
            AngleSteel::L80x80x6 => 6,
            AngleSteel::L100x100x10 => 10,
        }
    }

    /// Catalog cross-sectional area, square millimetres.
    pub open spec fn area_model(self) -> RatModel {
        match self {
            AngleSteel::L80x80x6 => area_canonical(
                RatModel { num: 9327, den: 1000 },
                LengthUnit::CentiMeter,
            ),
            AngleSteel::L100x100x10 => area_canonical(
                RatModel { num: 1900, den: 100 },
                LengthUnit::CentiMeter,
            ),
        }
    }

    /// One bolt line per angle, at the standard gauge of the leg.
    pub open spec fn gauge_model(self) -> Seq<RatModel> {
        match self {
            AngleSteel::L80x80x6 => seq![rat_of_int(45)],
            AngleSteel::L100x100x10 => seq![rat_of_int(55)],
        }
    }

    /// Catalog lookup by name; `None` if and only if no entry has the name.
    pub fn new(name: &str) -> (r: Option<Self>)
        ensures
            match r {
                Some(s) => s.name_spec() == name@,
                None => name@ != "L-80x80x6"@ && name@ != "L-100x100x10"@,
            },
    {
        if str_eq(name, "L-80x80x6") {
            Some(AngleSteel::L80x80x6)
        } else if str_eq(name, "L-100x100x10") {
            Some(AngleSteel::L100x100x10)
        } else {
            None
        }
    }

    /// Every catalog entry, in catalog order.
    pub fn iter() -> (r: Vec<Self>)
        ensures
            r@ =~= seq![AngleSteel::L80x80x6, AngleSteel::L100x100x10],
    {
        let mut v: Vec<AngleSteel> = Vec::new();
        v.push(AngleSteel::L80x80x6);
        v.push(AngleSteel::L100x100x10);
        v
    }

    pub fn name(&self) -> (r: &'static str)
        ensures
            r@ == self.name_spec(),
    {
        match self {
            AngleSteel::L80x80x6 => "L-80x80x6",
            AngleSteel::L100x100x10 => "L-100x100x10",
        }
    }

    pub fn a(&self) -> (r: Length)
        ensures
            r@ == rat_of_int(self.a_spec()),
            r.wf(),
    {
        match self {
            AngleSteel::L80x80x6 => Length::new(Rational::from_int(80), LengthUnit::MilliMeter),
            AngleSteel::L100x100x10 => Length::new(Rational::from_int(100), LengthUnit::MilliMeter),
        }
    }

    pub fn b(&self) -> (r: Length)
        ensures
            r@ == rat_of_int(self.b_spec()),
            r.wf(),
    {
        match self {
            AngleSteel::L80x80x6 => Length::new(Rational::from_int(80), LengthUnit::MilliMeter),
            AngleSteel::L100x100x10 => Length::new(Rational::from_int(100), LengthUnit::MilliMeter),
        }
    }

    pub fn t(&self) -> (r: Length)
        ensures
            r@ == rat_of_int(self.t_spec()),
            r.wf(),
    {
        match self {
            AngleSteel::L80x80x6 => Length::new(Rational::from_int(6), LengthUnit::MilliMeter),
            AngleSteel::L100x100x10 => Length::new(Rational::from_int(10), LengthUnit::MilliMeter),
        }
    }

    pub fn area(&self) -> (r: Area)
        ensures
            r@ == self.area_model(),
            r.wf(),
    {
        let raw = match self {
            AngleSteel::L80x80x6 => Area::new(Rational::new(9327, 1000), LengthUnit::CentiMeter),
            AngleSteel::L100x100x10 => Area::new(Rational::new(1900, 100), LengthUnit::CentiMeter),
        };
        match raw {
            Ok(a) => a,
            Err(_) => {
                proof {
                    assert(false);
                }
                Area::zero()
            },
        }
    }

    pub fn gauge_list(&self) -> (r: Vec<Length>)
        ensures
            gauge_ok(r@, self.gauge_model()),
    {
        let mut v: Vec<Length> = Vec::new();
        match self {
            AngleSteel::L80x80x6 => v.push(
                Length::new(Rational::from_int(45), LengthUnit::MilliMeter),
            ),
            AngleSteel::L100x100x10 => v.push(
                Length::new(Rational::from_int(55), LengthUnit::MilliMeter),
            ),
        }
        v
    }

    pub fn thickness(&self) -> (r: Length)
        ensures
            r@ == rat_of_int(self.t_spec()),
            r.wf(),
    {
        self.t()
    }

    pub fn breadth(&self) -> (r: Length)
        ensures
            r@ == rat_of_int(self.a_spec()),
            r.wf(),
    {
        self.a()
    }

    /// Outline vertices in `u`: the two legs of the angle.
    pub open spec fn shape_model(self, u: LengthUnit) -> Seq<(RatModel, RatModel)> {
        let a = length_reading(rat_of_int(self.a_spec()), u);
        let b = length_reading(rat_of_int(self.b_spec()), u);
        let t = length_reading(rat_of_int(self.t_spec()), u);
        let z = rat_of_int(0);
        seq![(z, z), (a, z), (a, t), (t, t), (t, b), (z, b)]
    }

    pub fn shape_in(&self, u: LengthUnit) -> (r: Polyline)
        ensures
            poly_ok(r, self.shape_model(u)),
    {
        let zero = Rational::from_int(0);
        let a = self.a().get_value_in(u);
        let b = self.b().get_value_in(u);
        let t = self.t().get_value_in(u);
        let mut rest: Vec<(Rational, Rational)> = Vec::new();
        rest.push((a, zero));
        rest.push((a, t));
        rest.push((t, t));
        rest.push((t, b));
        rest.push((zero, b));
        Polyline { start_point: (zero, zero), next_points: rest }
    }

    pub fn shape_in_m(&self) -> (r: Polyline)
        ensures
            poly_ok(r, self.shape_model(LengthUnit::Meter)),
    {
        self.shape_in(LengthUnit::Meter)
    }

    pub fn shape_in_mm(&self) -> (r: Polyline)
        ensures
            poly_ok(r, self.shape_model(LengthUnit::MilliMeter)),
    {
        self.shape_in(LengthUnit::MilliMeter)
    }
}

/// Channel sections.
#[derive(Clone, Copy, Debug, PartialEq, Eq, Structural)]
pub enum ChannelSteel {
    C100x50x5x7p5,
}

impl ChannelSteel {
    pub open spec fn name_spec(self) -> Seq<char> {
        match self {
            ChannelSteel::C100x50x5x7p5 => "[-100x50x5x7.5"@,
        }
    }

    /// Depth, millimetres.
    pub open spec fn h_spec(self) -> int {
        match self {
            ChannelSteel::C100x50x5x7p5 => 100,
        }
    }

    /// Flange width, millimetres.
    pub open spec fn b_spec(self) -> int {
        match self {
            ChannelSteel::C100x50x5x7p5 => 50,
        }
    }

    /// Web thickness, millimetres.
    pub open spec fn t1_spec(self) -> int {
        match self {
            ChannelSteel::C100x50x5x7p5 => 5,
        }
    }

    /// Flange thickness, millimetres.
    pub open spec fn t2_spec(self) -> RatModel {
        match self {
            ChannelSteel::C100x50x5x7p5 => RatModel { num: 15, den: 2 },
        }
    }

    /// Catalog cross-sectional area, square millimetres.
    pub open spec fn area_model(self) -> RatModel {
        match self {
            ChannelSteel::C100x50x5x7p5 => area_canonical(
                RatModel { num: 1192, den: 100 },
                LengthUnit::CentiMeter,
            ),
        }
    }

    /// The channel has no gauge table entry: no bolt line is defined for it.
    pub open spec fn gauge_model(self) -> Seq<RatModel> {
        Seq::empty()
    }

    /// Catalog lookup by name; `None` if and only if no entry has the name.
    pub fn new(name: &str) -> (r: Option<Self>)
        ensures
            match r {
                Some(s) => s.name_spec() == name@,
                None => name@ != "[-100x50x5x7.5"@,
            },
    {
        if str_eq(name, "[-100x50x5x7.5") {
            Some(ChannelSteel::C100x50x5x7p5)
        } else {
            None
        }
    }

    /// Every catalog entry, in catalog order.
    pub fn iter() -> (r: Vec<Self>)
        ensures
            r@ =~= seq![ChannelSteel::C100x50x5x7p5],
    {
        let mut v: Vec<ChannelSteel> = Vec::new();
        v.push(ChannelSteel::C100x50x5x7p5);
        v
    }

    pub fn name(&self) -> (r: &'static str)
        ensures
            r@ == self.name_spec(),
    {
        match self {
            ChannelSteel::C100x50x5x7p5 => "[-100x50x5x7.5",
        }
    }

    pub fn h(&self) -> (r: Length)
        ensures
            r@ == rat_of_int(self.h_spec()),
            r.wf(),
    {
        Length::new(Rational::from_int(100), LengthUnit::MilliMeter)
    }

    pub fn b(&self) -> (r: Length)
        ensures
            r@ == rat_of_int(self.b_spec()),
            r.wf(),
    {
        Length::new(Rational::from_int(50), LengthUnit::MilliMeter)
    }

    pub fn t1(&self) -> (r: Length)
        ensures
            r@ == rat_of_int(self.t1_spec()),
            r.wf(),
    {
        Length::new(Rational::from_int(5), LengthUnit::MilliMeter)
    }

    pub fn t2(&self) -> (r: Length)
        ensures
            r@ == self.t2_spec(),
            r.wf(),
    {
        Length::new(Rational::new(15, 2), LengthUnit::MilliMeter)
    }

    pub fn area(&self) -> (r: Area)
        ensures
            r@ == self.area_model(),
            r.wf(),
    {
        match Area::new(Rational::new(1192, 100), LengthUnit::CentiMeter) {
            Ok(a) => a,
            Err(_) => {
                proof {
                    assert(false);
                }
                Area::zero()
            },
        }
    }

    /// Empty: the channel has no gauge table entry.
    pub fn gauge_list(&self) -> (r: Vec<Length>)
        ensures
            gauge_ok(r@, self.gauge_model()),
    {
        Vec::new()
    }

    pub fn thickness(&self) -> (r: Length)
        ensures
            r@ == rat_of_int(self.t1_spec()),
            r.wf(),
    {
        self.t1()
    }

    pub fn breadth(&self) -> (r: Length)
        ensures
            r@ == rat_of_int(self.h_spec()),
            r.wf(),
    {
        self.h()
    }

    /// Outline vertices in `u`: web on the left, flanges to the right.
    pub open spec fn shape_model(self, u: LengthUnit) -> Seq<(RatModel, RatModel)> {
        let h = length_reading(rat_of_int(self.h_spec()), u);
        let b = length_reading(rat_of_int(self.b_spec()), u);
        let t1 = length_reading(rat_of_int(self.t1_spec()), u);
        let t2 = length_reading(self.t2_spec(), u);
        let h2 = rat_div(h, rat_of_int(2));
        let e = rat_sub(h2, t2);
        let z = rat_of_int(0);
        seq![
            (z, z),
            (z, h2),
            (b, h2),
            (b, e),
            (t1, e),
            (t1, rat_neg(e)),
            (b, rat_neg(e)),
            (b, rat_neg(h2)),
            (z, rat_neg(h2)),
        ]
    }

    pub fn shape_in(&self, u: LengthUnit) -> (r: Polyline)
        ensures
            poly_ok(r, self.shape_model(u)),
    {
        let zero = Rational::from_int(0);
        let two = Rational::from_int(2);
        let h = self.h().get_value_in(u);
        let b = self.b().get_value_in(u);
        let t1 = self.t1().get_value_in(u);
        let t2 = self.t2().get_value_in(u);
        let h2 = h.div(two);
        let e = h2.sub(t2);
        let ne = e.neg();
        let nh2 = h2.neg();
        let mut rest: Vec<(Rational, Rational)> = Vec::new();
        rest.push((zero, h2));
        rest.push((b, h2));
        rest.push((b, e));
        rest.push((t1, e));
        rest.push((t1, ne));
        rest.push((b, ne));
        rest.push((b, nh2));
        rest.push((zero, nh2));
        Polyline { start_point: (zero, zero), next_points: rest }
    }

    pub fn shape_in_m(&self) -> (r: Polyline)
        ensures
            poly_ok(r, self.shape_model(LengthUnit::Meter)),
    {
        self.shape_in(LengthUnit::Meter)
    }

    pub fn shape_in_mm(&self) -> (r: Polyline)
        ensures
            poly_ok(r, self.shape_model(LengthUnit::MilliMeter)),
    {
        self.shape_in(LengthUnit::MilliMeter)
    }
}

/// A selected section profile: one of the closed set of catalog families.
#[derive(Clone, Copy, Debug, PartialEq, Eq, Structural)]
pub enum SectionProfile {
    Ct(CTSteel),
    Angle(AngleSteel),
    Channel(ChannelSteel),
}

impl SectionProfile {
    pub open spec fn name_spec(self) -> Seq<char> {
        match self {
            SectionProfile::Ct(s) => s.name_spec(),
            SectionProfile::Angle(s) => s.name_spec(),
            SectionProfile::Channel(s) => s.name_spec(),
        }
    }

    /// Cross-sectional area, square millimetres.
    pub open spec fn area_model(self) -> RatModel {
        match self {
            SectionProfile::Ct(s) => rat_of_int(s.area_spec()),
            SectionProfile::Angle(s) => s.area_model(),
            SectionProfile::Channel(s) => s.area_model(),
        }
    }

    pub open spec fn gauge_model(self) -> Seq<RatModel> {
        match self {
            SectionProfile::Ct(s) => s.gauge_model(),
            SectionProfile::Angle(s) => s.gauge_model(),
            SectionProfile::Channel(s) => s.gauge_model(),
        }
    }

    /// Base-metal thickness, millimetres.
    pub open spec fn thickness_model(self) -> RatModel {
        match self {
            SectionProfile::Ct(s) => rat_of_int(s.tf_spec()),
            SectionProfile::Angle(s) => rat_of_int(s.t_spec()),
            SectionProfile::Channel(s) => rat_of_int(s.t1_spec()),
        }
    }

    /// Overall breadth, millimetres.
    pub open spec fn breadth_model(self) -> RatModel {
        match self {
            SectionProfile::Ct(s) => rat_of_int(s.b_spec()),
            SectionProfile::Angle(s) => rat_of_int(s.a_spec()),
            SectionProfile::Channel(s) => rat_of_int(s.h_spec()),
        }
    }

    pub open spec fn shape_model(self, u: LengthUnit) -> Seq<(RatModel, RatModel)> {
        match self {
            SectionProfile::Ct(s) => s.shape_model(u),
            SectionProfile::Angle(s) => s.shape_model(u),
            SectionProfile::Channel(s) => s.shape_model(u),
        }
    }

    /// Signed transverse spread of the bolt lines: first gauge offset minus
    /// last gauge offset. Fails with `UnsupportedConfiguration` if and only
    /// if the profile has no gauge table entry.
    pub open spec fn gauge_width_model(self) -> RatModel {
        rat_sub(self.gauge_model()[0], self.gauge_model()[self.gauge_model().len() - 1])
    }

    pub fn name(&self) -> (r: &'static str)
        ensures
            r@ == self.name_spec(),
    {
        match self {
            SectionProfile::Ct(s) => s.name(),
            SectionProfile::Angle(s) => s.name(),
            SectionProfile::Channel(s) => s.name(),
        }
    }

    pub fn area(&self) -> (r: Area)
        ensures
            r@ == self.area_model(),
            r.wf(),
    {
        match self {
            SectionProfile::Ct(s) => s.area(),
            SectionProfile::Angle(s) => s.area(),
            SectionProfile::Channel(s) => s.area(),
        }
    }

    pub fn gauge_list(&self) -> (r: Vec<Length>)
        ensures
            gauge_ok(r@, self.gauge_model()),
    {
        match self {
            SectionProfile::Ct(s) => s.gauge_list(),
            SectionProfile::Angle(s) => s.gauge_list(),
            SectionProfile::Channel(s) => s.gauge_list(),
        }
    }

    /// The number of bolt columns: the length of the gauge list.
    pub fn num_bolt_col(&self) -> (r: u32)
        ensures
            r == self.gauge_model().len(),
    {
        proof {
            assert(self.gauge_model().len() <= 4);
        }
        let g = self.gauge_list();
        g.len() as u32
    }

    pub fn gauge_width(&self) -> (r: Result<Length, CalcError>)
        ensures
            match r {
                Ok(w) => self.gauge_model().len() > 0 && w@ == self.gauge_width_model() && w.wf(),
                Err(e) => self.gauge_model().len() == 0 && e
                    == CalcError::UnsupportedConfiguration,
            },
    {
        let g = self.gauge_list();
        if g.len() == 0 {
            return Err(CalcError::UnsupportedConfiguration);
        }
        let first = g[0];
        let last = g[g.len() - 1];
        proof {
            assert(-320 <= first@.num <= 320 && 1 <= first@.den <= 2);
            assert(-320 <= last@.num <= 320 && 1 <= last@.den <= 2);
            lemma_mul_bound(first@.num, last@.den, 320, 2);
            lemma_mul_bound(last@.num, first@.den, 320, 2);
            lemma_mul_bound(first@.den, last@.den, 2, 2);
        }
        Ok(first.sub(last))
    }

    pub fn thickness(&self) -> (r: Length)
        ensures
            r@ == self.thickness_model(),
            r.wf(),
    {
        match self {
            SectionProfile::Ct(s) => s.thickness(),
            SectionProfile::Angle(s) => s.thickness(),
            SectionProfile::Channel(s) => s.thickness(),
        }
    }

    pub fn breadth(&self) -> (r: Length)
        ensures
            r@ == self.breadth_model(),
            r.wf(),
    {
        match self {
            SectionProfile::Ct(s) => s.breadth(),
            SectionProfile::Angle(s) => s.breadth(),
            SectionProfile::Channel(s) => s.breadth(),
        }
    }

    pub fn shape_in(&self, u: LengthUnit) -> (r: Polyline)
        ensures
            poly_ok(r, self.shape_model(u)),
    {
        match self {
            SectionProfile::Ct(s) => s.shape_in(u),
            SectionProfile::Angle(s) => s.shape_in(u),
            SectionProfile::Channel(s) => s.shape_in(u),
        }
    }

    pub fn shape_in_m(&self) -> (r: Polyline)
        ensures
            poly_ok(r, self.shape_model(LengthUnit::Meter)),
    {
        self.shape_in(LengthUnit::Meter)
    }

    pub fn shape_in_mm(&self) -> (r: Polyline)
        ensures
            poly_ok(r, self.shape_model(LengthUnit::MilliMeter)),
    {
        self.shape_in(LengthUnit::MilliMeter)
    }
}

/// Every catalog gauge width is a small rational: magnitude at most two
/// thousand with denominator at most four.
pub proof fn lemma_gauge_width_bounds(s: SectionProfile)
    requires
        s.gauge_model().len() > 0,
    ensures
        -2000 <= s.gauge_width_model().num <= 2000,
        1 <= s.gauge_width_model().den <= 4,
{
    match s {
        SectionProfile::Ct(c) => match c {
            CTSteel::Ct100x200x8x12 => {
                assert(s.gauge_model() =~= seq![rat_of_int(60), rat_of_int(-60)]);
                assert(s.gauge_width_model() == rat_sub(rat_of_int(60), rat_of_int(-60)));
                assert(rat_sub(rat_of_int(60), rat_of_int(-60)).den == 1int * 1int);
                assert(-2000 <= s.gauge_width_model().num <= 2000);
                assert(1 <= s.gauge_width_model().den <= 4);
            },
            CTSteel::Ct125x250x9x14 => {
                assert(s.gauge_model() =~= seq![rat_of_int(75), rat_of_int(-75)]);
                assert(s.gauge_width_model() == rat_sub(rat_of_int(75), rat_of_int(-75)));
                assert(rat_sub(rat_of_int(75), rat_of_int(-75)).den == 1int * 1int);
                assert(-2000 <= s.gauge_width_model().num <= 2000);
                assert(1 <= s.gauge_width_model().den <= 4);
            },
        },
        SectionProfile::Angle(a) => match a {
            AngleSteel::L80x80x6 => {
                assert(s.gauge_model() =~= seq![rat_of_int(45)]);
                assert(s.gauge_width_model() == rat_sub(rat_of_int(45), rat_of_int(45)));
                assert(rat_sub(rat_of_int(45), rat_of_int(45)).den == 1int * 1int);
                assert(-2000 <= s.gauge_width_model().num <= 2000);
                assert(1 <= s.gauge_width_model().den <= 4);
            },
            AngleSteel::L100x100x10 => {
                assert(s.gauge_model() =~= seq![rat_of_int(55)]);
                assert(s.gauge_width_model() == rat_sub(rat_of_int(55), rat_of_int(55)));
                assert(rat_sub(rat_of_int(55), rat_of_int(55)).den == 1int * 1int);
                assert(-2000 <= s.gauge_width_model().num <= 2000);
                assert(1 <= s.gauge_width_model().den <= 4);
            },
        },
        SectionProfile::Channel(_) => {
            assert(s.gauge_model().len() == 0);
        },
    }
}

/// Every catalog gauge offset is a small rational: magnitude at most three
/// hundred twenty with denominator at most two.
pub proof fn lemma_gauge_entry_bounds(s: SectionProfile, j: int)
    requires
        0 <= j < s.gauge_model().len(),
    ensures
        -320 <= s.gauge_model()[j].num <= 320,
        1 <= s.gauge_model()[j].den <= 2,
{
    match s {
        SectionProfile::Ct(c) => match c {
            CTSteel::Ct100x200x8x12 => {
                assert(s.gauge_model() =~= seq![rat_of_int(60), rat_of_int(-60)]);
                if j == 0 {
                    assert(s.gauge_model()[j] == rat_of_int(60));
                } else {
                    assert(s.gauge_model()[j] == rat_of_int(-60));
                }
            },
            CTSteel::Ct125x250x9x14 => {
                assert(s.gauge_model() =~= seq![rat_of_int(75), rat_of_int(-75)]);
                if j == 0 {
                    assert(s.gauge_model()[j] == rat_of_int(75));
                } else {
                    assert(s.gauge_model()[j] == rat_of_int(-75));
                }
            },
        },
        SectionProfile::Angle(a) => match a {
            AngleSteel::L80x80x6 => {
                assert(s.gauge_model() =~= seq![rat_of_int(45)]);
                assert(s.gauge_model()[j] == rat_of_int(45));
            },
            AngleSteel::L100x100x10 => {
                assert(s.gauge_model() =~= seq![rat_of_int(55)]);
                assert(s.gauge_model()[j] == rat_of_int(55));
            },
        },
        SectionProfile::Channel(_) => {
            assert(s.gauge_model().len() == 0);
        },
    }
}

/// Catalog names are unique keys: two profiles with the same name are the
/// same profile.
pub proof fn lemma_section_names_unique(s1: SectionProfile, s2: SectionProfile)
    requires
        s1.name_spec() == s2.name_spec(),
    ensures
        s1 == s2,
{
    reveal_strlit("CT-100x200x8x12");
    reveal_strlit("CT-125x250x9x14");
    reveal_strlit("L-80x80x6");
    reveal_strlit("L-100x100x10");
    reveal_strlit("[-100x50x5x7.5");
    assert(("CT-100x200x8x12"@).len() == 15);
    assert(("CT-125x250x9x14"@).len() == 15);
    assert(("L-80x80x6"@).len() == 9);
    assert(("L-100x100x10"@).len() == 12);
    assert(("[-100x50x5x7.5"@).len() == 14);
    assert(("CT-100x200x8x12"@)[4] == '0');
    assert(("CT-125x250x9x14"@)[4] == '2');
}

/// `n` is the name of some catalog section.
pub open spec fn is_section_name(n: Seq<char>) -> bool {
    ||| n == "CT-100x200x8x12"@
    ||| n == "CT-125x250x9x14"@
    ||| n == "L-80x80x6"@
    ||| n == "L-100x100x10"@
    ||| n == "[-100x50x5x7.5"@
}

/// Catalog lookup across every section family; `None` if and only if no
/// entry has the name.
pub fn get_section(name: &str) -> (r: Option<SectionProfile>)
    ensures
        match r {
            Some(s) => s.name_spec() == name@,
            None => !is_section_name(name@),
        },
{
    if let Some(section) = CTSteel::from_str(name) {
        return Some(SectionProfile::Ct(section));
    }
    if let Some(section) = AngleSteel::new(name) {
        return Some(SectionProfile::Angle(section));
    }
    if let Some(section) = ChannelSteel::new(name) {
        return Some(SectionProfile::Channel(section));
    }
    None
}

/// The names of every catalog section, in catalog order.
pub fn list_sections() -> (r: Vec<&'static str>)
    ensures
        r@.len() == 5,
        r@[0]@ == "CT-100x200x8x12"@,
        r@[1]@ == "CT-125x250x9x14"@,
        r@[2]@ == "L-80x80x6"@,
        r@[3]@ == "L-100x100x10"@,
        r@[4]@ == "[-100x50x5x7.5"@,
{
    let mut list: Vec<&'static str> = Vec::new();
    list.push("CT-100x200x8x12");
    list.push("CT-125x250x9x14");
    list.push("L-80x80x6");
    list.push("L-100x100x10");
    list.push("[-100x50x5x7.5");
    list
}


/// Reads are idempotent: any two outline results that match the same model
/// agree vertex by vertex, so repeating a geometry query against an
/// unchanged state returns identical coordinates.
pub proof fn lemma_shape_reads_agree(m: Seq<(RatModel, RatModel)>, p1: Polyline, p2: Polyline)
    requires
        poly_ok(p1, m),
        poly_ok(p2, m),
    ensures
        p1.start_point.0@ == p2.start_point.0@,
        p1.start_point.1@ == p2.start_point.1@,
        p1.next_points@.len() == p2.next_points@.len(),
        forall|i: int|
            0 <= i < p1.next_points@.len() ==> (#[trigger] p1.next_points@[i]).0@
                == p2.next_points@[i].0@ && p1.next_points@[i].1@ == p2.next_points@[i].1@,
{
}

} // verus!
