//! Welding configuration of the gusset joint: a closed set of weld types
//! plus the weld length and size.

use vstd::prelude::*;

use crate::rational::{rat_of_int, Rational};
use crate::text::str_eq;
use crate::unit::LengthUnit;
use crate::value::Length;

verus! {

#[derive(Clone, Copy, Debug, PartialEq, Eq, Structural)]
pub enum WeldingType {
    I,
    II,
    III,
}

impl WeldingType {
    pub open spec fn name_spec(self) -> Seq<char> {
        match self {
            WeldingType::I => "I"@,
            WeldingType::II => "II"@,
            WeldingType::III => "III"@,
        }
    }

    /// Catalog lookup by name; `None` if and only if no entry has the name.
    pub fn new(name: &str) -> (r: Option<Self>)
        ensures
            match r {
                Some(w) => w.name_spec() == name@,
                None => name@ != "I"@ && name@ != "II"@ && name@ != "III"@,
            },
    {
        if str_eq(name, "I") {
            Some(WeldingType::I)
        } else if str_eq(name, "II") {
            Some(WeldingType::II)
        } else if str_eq(name, "III") {
            Some(WeldingType::III)
        } else {
            None
        }
    }

    pub fn name(&self) -> (r: &'static str)
        ensures
            r@ == self.name_spec(),
    {
        match self {
            WeldingType::I => "I",
            WeldingType::II => "II",
            WeldingType::III => "III",
        }
    }
}

/// A weld between gusset plate and base metal.
#[derive(Clone, Copy, Debug, PartialEq, Eq, Structural)]
pub struct Welding {
    pub welding_type: WeldingType,
    pub welding_length: Length,
    pub welding_size: Length,
}

impl Default for Welding {
    /// Type I with zero length and size.
    fn default() -> (r: Self)
        ensures
            r.welding_type == WeldingType::I,
            r.welding_length@ == rat_of_int(0),
            r.welding_size@ == rat_of_int(0),
            r.welding_length.wf(),
            r.welding_size.wf(),
    {
        Welding {
            welding_type: WeldingType::I,
            welding_length: Length::new(Rational::from_int(0), LengthUnit::MilliMeter),
            welding_size: Length::new(Rational::from_int(0), LengthUnit::MilliMeter),
        }
    }
}

/// Catalog names are unique keys: two weld types with the same name are the
/// same type.
pub proof fn lemma_welding_type_names_unique(w1: WeldingType, w2: WeldingType)
    requires
        w1.name_spec() == w2.name_spec(),
    ensures
        w1 == w2,
{
    reveal_strlit("I");
    reveal_strlit("II");
    reveal_strlit("III");
    assert(("I"@).len() == 1);
    assert(("II"@).len() == 2);
    assert(("III"@).len() == 3);
}

/// The names of every weld type, in catalog order.
pub fn list_welding_types() -> (r: Vec<&'static str>)
    ensures
        r@.len() == 3,
        r@[0]@ == "I"@,
        r@[1]@ == "II"@,
        r@[2]@ == "III"@,
{
    let mut list: Vec<&'static str> = Vec::new();
    list.push("I");
    list.push("II");
    list.push("III");
    list
}

} // verus!
