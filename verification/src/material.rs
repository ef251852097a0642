//! Steel and bolt material catalogs: yield, ultimate and allowable shear
//! stresses keyed by a unique material name.

use vstd::prelude::*;

use crate::rational::{rat_of_int, RatModel, Rational};
use crate::text::str_eq;
use crate::unit::{ForceUnit, LengthUnit};
use crate::value::Stress;

verus! {

/// Marker for catalog material entries.
pub trait Material {}

#[derive(Clone, Copy, Debug, PartialEq, Eq, Structural)]
pub enum SteelMaterial {
    SS400,
    SM490,
}

impl Material for SteelMaterial {}

impl SteelMaterial {
    pub open spec fn name_spec(self) -> Seq<char> {
        match self {
            SteelMaterial::SS400 => "SS400"@,
            SteelMaterial::SM490 => "SM490"@,
        }
    }

    /// Yield stress in newtons per square millimetre.
    pub open spec fn fy_spec(self) -> RatModel {
        match self {
            SteelMaterial::SS400 => rat_of_int(235),
            SteelMaterial::SM490 => rat_of_int(325),
        }
    }

    /// Ultimate stress in newtons per square millimetre.
    pub open spec fn fu_spec(self) -> RatModel {
        match self {
            SteelMaterial::SS400 => rat_of_int(400),
            SteelMaterial::SM490 => rat_of_int(490),
        }
    }

    /// Catalog lookup by name; `None` if and only if no entry has the name.
    pub fn new(name: &str) -> (r: Option<Self>)
        ensures
            match r {
                Some(m) => m.name_spec() == name@,
                None => name@ != "SS400"@ && name@ != "SM490"@,
            },
    {
        if str_eq(name, "SS400") {
            Some(SteelMaterial::SS400)
        } else if str_eq(name, "SM490") {
            Some(SteelMaterial::SM490)
        } else {
            None
        }
    }

    pub fn name(&self) -> (r: &'static str)
        ensures
            r@ == self.name_spec(),
    {
        match self {
            SteelMaterial::SS400 => "SS400",
            SteelMaterial::SM490 => "SM490",
        }
    }

    pub fn get_fy(&self) -> (r: Stress)
        ensures
            r@ == self.fy_spec(),
            r.wf(),
    {
        match self {
            SteelMaterial::SS400 => Stress::new(
                Rational::from_int(235),
                ForceUnit::Newton,
                LengthUnit::MilliMeter,
            ),
            SteelMaterial::SM490 => Stress::new(
                Rational::from_int(325),
                ForceUnit::Newton,
                LengthUnit::MilliMeter,
            ),
        }
    }

    pub fn get_fu(&self) -> (r: Stress)
        ensures
            r@ == self.fu_spec(),
            r.wf(),
    {
        match self {
            SteelMaterial::SS400 => Stress::new(
                Rational::from_int(400),
                ForceUnit::Newton,
                LengthUnit::MilliMeter,
            ),
            SteelMaterial::SM490 => Stress::new(
                Rational::from_int(490),
                ForceUnit::Newton,
                LengthUnit::MilliMeter,
            ),
        }
    }
}

impl Default for SteelMaterial {
    fn default() -> (r: Self)
        ensures
            r == SteelMaterial::SS400,
    {
        SteelMaterial::SS400
    }
}

#[derive(Clone, Copy, Debug, PartialEq, Eq, Structural)]
pub enum BoltMaterial {
    F8T,
    F10T,
}

impl Material for BoltMaterial {}

impl BoltMaterial {
    pub open spec fn name_spec(self) -> Seq<char> {
        match self {
            BoltMaterial::F8T => "F8T"@,
            BoltMaterial::F10T => "F10T"@,
        }
    }

    /// Allowable shear stress in newtons per square millimetre.
    pub open spec fn t0_spec(self) -> RatModel {
        match self {
            BoltMaterial::F8T => rat_of_int(400),
            BoltMaterial::F10T => rat_of_int(500),
        }
    }

    /// Catalog lookup by name; `None` if and only if no entry has the name.
    pub fn new(name: &str) -> (r: Option<Self>)
        ensures
            match r {
                Some(m) => m.name_spec() == name@,
                None => name@ != "F8T"@ && name@ != "F10T"@,
            },
    {
        if str_eq(name, "F8T") {
            Some(BoltMaterial::F8T)
        } else if str_eq(name, "F10T") {
            Some(BoltMaterial::F10T)
        } else {
            None
        }
    }

    pub fn name(&self) -> (r: &'static str)
        ensures
            r@ == self.name_spec(),
    {
        match self {
            BoltMaterial::F8T => "F8T",
            BoltMaterial::F10T => "F10T",
        }
    }

    pub fn get_t0(&self) -> (r: Stress)
        ensures
            r@ == self.t0_spec(),
            r.wf(),
    {
        match self {
            BoltMaterial::F8T => Stress::new(
                Rational::from_int(400),
                ForceUnit::Newton,
                LengthUnit::MilliMeter,
            ),
            BoltMaterial::F10T => Stress::new(
                Rational::from_int(500),
                ForceUnit::Newton,
                LengthUnit::MilliMeter,
            ),
        }
    }
}

impl Default for BoltMaterial {
    fn default() -> (r: Self)
        ensures
            r == BoltMaterial::F10T,
    {
        BoltMaterial::F10T
    }
}

/// Catalog names are unique keys: two steel materials with the same name
/// are the same material.
pub proof fn lemma_steel_material_names_unique(m1: SteelMaterial, m2: SteelMaterial)
    requires
        m1.name_spec() == m2.name_spec(),
    ensures
        m1 == m2,
{
    reveal_strlit("SS400");
    reveal_strlit("SM490");
    assert(("SS400"@)[1] == 'S');
    assert(("SM490"@)[1] == 'M');
}

/// Catalog names are unique keys: two bolt materials with the same name are
/// the same material.
pub proof fn lemma_bolt_material_names_unique(m1: BoltMaterial, m2: BoltMaterial)
    requires
        m1.name_spec() == m2.name_spec(),
    ensures
        m1 == m2,
{
    reveal_strlit("F8T");
    reveal_strlit("F10T");
    assert(("F8T"@).len() == 3);
    assert(("F10T"@).len() == 4);
}

/// The names of every steel material, in catalog order.
pub fn list_materials() -> (r: Vec<&'static str>)
    ensures
        r@.len() == 2,
        r@[0]@ == "SS400"@,
        r@[1]@ == "SM490"@,
{
    let mut list: Vec<&'static str> = Vec::new();
    list.push("SS400");
    list.push("SM490");
    list
}

/// The names of every bolt material, in catalog order.
pub fn list_bolt_materials() -> (r: Vec<&'static str>)
    ensures
        r@.len() == 2,
        r@[0]@ == "F8T"@,
        r@[1]@ == "F10T"@,
{
    let mut list: Vec<&'static str> = Vec::new();
    list.push("F8T");
    list.push("F10T");
    list
}

} // verus!
