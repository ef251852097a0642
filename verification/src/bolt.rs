//! High-tension bolts: diameter catalog, per-bolt friction-joint shear
//! capacity, and the bolt-group connection with its joint geometry.

use vstd::prelude::*;

use crate::error::CalcError;
use crate::material::BoltMaterial;
use crate::rational::{
    in_prod_range, lemma_mul_bound, rat_mul, rat_of_int, RatModel, Rational,
};
use crate::text::str_eq;
use crate::unit::LengthUnit;
use crate::value::{Area, Length};

verus! {

/// End distance of the bolt group, millimetres.
pub const END_DISTANCE_MM: i128 = 40;

/// Bolt pitch, millimetres.
pub const PITCH_MM: i128 = 60;

#[derive(Clone, Copy, Debug, PartialEq, Eq, Structural)]
pub enum BoltDiameter {
    M20,
    M22,
}

impl BoltDiameter {
    pub open spec fn name_spec(self) -> Seq<char> {
        match self {
            BoltDiameter::M20 => "M20"@,
            BoltDiameter::M22 => "M22"@,
        }
    }

    /// Shank diameter, millimetres.
    pub open spec fn d_spec(self) -> RatModel {
        match self {
            BoltDiameter::M20 => rat_of_int(20),
            BoltDiameter::M22 => rat_of_int(22),
        }
    }

    /// Hole diameter, millimetres.
    pub open spec fn hole_diameter_spec(self) -> RatModel {
        match self {
            BoltDiameter::M20 => rat_of_int(22),
            BoltDiameter::M22 => rat_of_int(24),
        }
    }

    /// Head height, millimetres.
    pub open spec fn h_spec(self) -> RatModel {
        match self {
            BoltDiameter::M20 => rat_of_int(13),
            BoltDiameter::M22 => rat_of_int(14),
        }
    }

    /// Head size across flats, millimetres.
    pub open spec fn large_d_spec(self) -> RatModel {
        match self {
            BoltDiameter::M20 => rat_of_int(30),
            BoltDiameter::M22 => rat_of_int(34),
        }
    }

    /// Full cross-sectional area, square millimetres.
    pub open spec fn full_area_spec(self) -> RatModel {
        match self {
            BoltDiameter::M20 => rat_of_int(314),
            BoltDiameter::M22 => rat_of_int(380),
        }
    }

    /// Catalog lookup by name; `None` if and only if no entry has the name.
    pub fn new(name: &str) -> (r: Option<Self>)
        ensures
            match r {
                Some(d) => d.name_spec() == name@,
                None => name@ != "M20"@ && name@ != "M22"@,
            },
    {
        if str_eq(name, "M20") {
            Some(BoltDiameter::M20)
        } else if str_eq(name, "M22") {
            Some(BoltDiameter::M22)
        } else {
            None
        }
    }

    pub fn name(&self) -> (r: &'static str)
        ensures
            r@ == self.name_spec(),
    {
        match self {
            BoltDiameter::M20 => "M20",
            BoltDiameter::M22 => "M22",
        }
    }

    pub fn d(&self) -> (r: Length)
        ensures
            r@ == self.d_spec(),
            r.wf(),
    {
        match self {
            BoltDiameter::M20 => Length::new(Rational::from_int(20), LengthUnit::MilliMeter),
            BoltDiameter::M22 => Length::new(Rational::from_int(22), LengthUnit::MilliMeter),
        }
    }

    pub fn hole_diameter(&self) -> (r: Length)
        ensures
            r@ == self.hole_diameter_spec(),
            r.wf(),
    {
        match self {
            BoltDiameter::M20 => Length::new(Rational::from_int(22), LengthUnit::MilliMeter),
            BoltDiameter::M22 => Length::new(Rational::from_int(24), LengthUnit::MilliMeter),
        }
    }

    pub fn h(&self) -> (r: Length)
        ensures
            r@ == self.h_spec(),
            r.wf(),
    {
        match self {
            BoltDiameter::M20 => Length::new(Rational::from_int(13), LengthUnit::MilliMeter),
            BoltDiameter::M22 => Length::new(Rational::from_int(14), LengthUnit::MilliMeter),
        }
    }

    pub fn large_d(&self) -> (r: Length)
        ensures
            r@ == self.large_d_spec(),
            r.wf(),
    {
        match self {
            BoltDiameter::M20 => Length::new(Rational::from_int(30), LengthUnit::MilliMeter),
            BoltDiameter::M22 => Length::new(Rational::from_int(34), LengthUnit::MilliMeter),
        }
    }

    pub fn full_area(&self) -> (r: Area)
        ensures
            r@ == self.full_area_spec(),
            r.wf(),
    {
        let raw = match self {
            BoltDiameter::M20 => Area::new(Rational::from_int(314), LengthUnit::MilliMeter),
            BoltDiameter::M22 => Area::new(Rational::from_int(380), LengthUnit::MilliMeter),
        };
        match raw {
            Ok(a) => a,
            Err(_) => {
                proof {
                    assert(false);
                }
                Area::zero()
            },
        }
    }
}

impl Default for BoltDiameter {
    fn default() -> (r: Self)
        ensures
            r == BoltDiameter::M20,
    {
        BoltDiameter::M20
    }
}

/// A bolt: a diameter entry together with a bolt material.
#[derive(Clone, Copy, Debug, PartialEq, Eq, Structural)]
pub struct HighTensionBolt {
    pub diameter: BoltDiameter,
    pub material: BoltMaterial,
}

impl HighTensionBolt {
    /// Per-bolt short-term allowable shear across one friction plane:
    /// full cross-sectional area times allowable shear stress times the
    /// empirical friction-joint reduction factor 0.45.
    pub open spec fn single_friction_spec(self) -> RatModel {
        rat_mul(
            rat_mul(self.diameter.full_area_spec(), self.material.t0_spec()),
            RatModel { num: 45, den: 100 },
        )
    }

    /// Both catalogs must know their names; `None` if and only if one does
    /// not.
    pub fn new(material_name: &str, diameter_name: &str) -> (r: Option<Self>)
        ensures
            match r {
                Some(b) => b.material.name_spec() == material_name@ && b.diameter.name_spec()
                    == diameter_name@,
                None => (material_name@ != "F8T"@ && material_name@ != "F10T"@) || (diameter_name@
                    != "M20"@ && diameter_name@ != "M22"@),
            },
    {
        if let Some(m) = BoltMaterial::new(material_name) {
            if let Some(d) = BoltDiameter::new(diameter_name) {
                return Some(HighTensionBolt { material: m, diameter: d });
            }
        }
        None
    }

    pub fn diameter(&self) -> (r: Length)
        ensures
            r@ == self.diameter.d_spec(),
            r.wf(),
    {
        self.diameter.d()
    }

    pub fn hole_diameter(&self) -> (r: Length)
        ensures
            r@ == self.diameter.hole_diameter_spec(),
            r.wf(),
    {
        self.diameter.hole_diameter()
    }

    pub fn head_height(&self) -> (r: Length)
        ensures
            r@ == self.diameter.h_spec(),
            r.wf(),
    {
        self.diameter.h()
    }

    pub fn head_size(&self) -> (r: Length)
        ensures
            r@ == self.diameter.large_d_spec(),
            r.wf(),
    {
        self.diameter.large_d()
    }

    pub fn allowable_shear_short_single_friction(&self) -> (r: crate::value::Force)
        ensures
            r@ == self.single_friction_spec(),
            r.wf(),
            0 <= r@.num <= 8_550_000,
            r@.den == 100,
    {
        let fa = self.diameter.full_area();
        let t0 = self.material.get_t0();
        assert(0 <= fa@.num <= 380 && fa@.den == 1);
        assert(0 <= t0@.num <= 500 && t0@.den == 1);
        proof {
            lemma_mul_bound(fa@.num, t0@.num, 380, 500);
        }
        let f = fa.mul_stress(t0);
        proof {
            lemma_mul_bound(f@.num, 45, 190_000, 45);
        }
        f.mul_rat(Rational::new(45, 100))
    }

    pub fn allowable_shear_short_double_friction(&self) -> (r: crate::value::Force)
        ensures
            r@ == rat_mul(self.single_friction_spec(), rat_of_int(2)),
            r.wf(),
            0 <= r@.num <= 17_100_000,
            r@.den == 100,
    {
        let single = self.allowable_shear_short_single_friction();
        single.mul_int(2)
    }
}

impl Default for HighTensionBolt {
    fn default() -> (r: Self)
        ensures
            r.diameter == BoltDiameter::M20,
            r.material == BoltMaterial::F10T,
    {
        HighTensionBolt { diameter: BoltDiameter::M20, material: BoltMaterial::F10T }
    }
}

/// A bolt group: one bolt entry repeated over `num_row` rows along the axis
/// of the brace (the column count comes from the section's gauge list).
#[derive(Clone, Copy, Debug, PartialEq, Eq, Structural)]
pub struct BoltConnection {
    pub bolt: HighTensionBolt,
    pub num_row: u32,
}

impl BoltConnection {
    /// Joint length of the bolt group: `pitch * num_row + end_distance`.
    /// This is the one convention used throughout; the alternative
    /// `2 * end_distance + pitch * (num_row - 1)` is deliberately not.
    pub open spec fn joint_length_spec(self) -> RatModel {
        RatModel { num: PITCH_MM * self.num_row + END_DISTANCE_MM, den: 1 }
    }

    /// Both catalogs must know their names; `None` if and only if one does
    /// not.
    pub fn new(material_name: &str, diameter_name: &str, num_row: u32) -> (r: Option<Self>)
        ensures
            match r {
                Some(c) => c.bolt.material.name_spec() == material_name@
                    && c.bolt.diameter.name_spec() == diameter_name@ && c.num_row == num_row,
                None => (material_name@ != "F8T"@ && material_name@ != "F10T"@) || (diameter_name@
                    != "M20"@ && diameter_name@ != "M22"@),
            },
    {
        if let Some(bolt) = HighTensionBolt::new(material_name, diameter_name) {
            return Some(BoltConnection { bolt, num_row });
        }
        None
    }

    pub fn end_distance(&self) -> (r: Length)
        ensures
            r@ == rat_of_int(END_DISTANCE_MM as int),
            r.wf(),
    {
        Length::new(Rational::from_int(END_DISTANCE_MM), LengthUnit::MilliMeter)
    }

    pub fn pitch(&self) -> (r: Length)
        ensures
            r@ == rat_of_int(PITCH_MM as int),
            r.wf(),
    {
        Length::new(Rational::from_int(PITCH_MM), LengthUnit::MilliMeter)
    }

    pub fn joint_length(&self) -> (r: Length)
        ensures
            r@ == self.joint_length_spec(),
            r.wf(),
    {
        let e = self.end_distance();
        let p = self.pitch();
        let n = self.num_row as i128;
        assert(p@.num == 60 && p@.den == 1);
        assert(0 <= n <= 4294967295);
        assert(in_prod_range(p@.num * n));
        p.mul_int(n).add(e)
    }
}

impl Default for BoltConnection {
    /// One row of the default bolt.
    fn default() -> (r: Self)
        ensures
            r.bolt.diameter == BoltDiameter::M20,
            r.bolt.material == BoltMaterial::F10T,
            r.num_row == 1,
    {
        BoltConnection { bolt: HighTensionBolt::default(), num_row: 1 }
    }
}

/// Catalog names are unique keys: two bolt diameters with the same name are
/// the same diameter.
pub proof fn lemma_bolt_diameter_names_unique(d1: BoltDiameter, d2: BoltDiameter)
    requires
        d1.name_spec() == d2.name_spec(),
    ensures
        d1 == d2,
{
    reveal_strlit("M20");
    reveal_strlit("M22");
    assert(("M20"@)[2] == '0');
    assert(("M22"@)[2] == '2');
}

/// The names of every bolt diameter, in catalog order.
pub fn list_bolt_diameters() -> (r: Vec<&'static str>)
    ensures
        r@.len() == 2,
        r@[0]@ == "M20"@,
        r@[1]@ == "M22"@,
{
    let mut list: Vec<&'static str> = Vec::new();
    list.push("M20");
    list.push("M22");
    list
}

} // verus!
