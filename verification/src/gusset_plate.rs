//! The gusset plate: thickness, half-length dimension and material, with its
//! gross area.

use vstd::prelude::*;

use crate::error::CalcError;
use crate::material::SteelMaterial;
use crate::rational::{lemma_mul_bound, rat_mul};
use crate::value::{len_bounded, Area, Length};

verus! {

#[derive(Clone, Copy, Debug, PartialEq, Eq, Structural)]
pub struct GussetPlate {
    pub thickness: Length,
    pub lg: Length,
    pub material: SteelMaterial,
}

impl GussetPlate {
    /// Dimensions within the machine limits of the capacity checks.
    pub open spec fn wf(&self) -> bool {
        &&& self.thickness.wf()
        &&& len_bounded(self.thickness@)
        &&& self.lg.wf()
        &&& len_bounded(self.lg@)
    }

    pub fn new(thickness: Length, lg: Length, material: SteelMaterial) -> (r: Self)
        requires
            thickness.wf(),
            len_bounded(thickness@),
            lg.wf(),
            len_bounded(lg@),
        ensures
            r.thickness == thickness,
            r.lg == lg,
            r.material == material,
            r.wf(),
    {
        GussetPlate { thickness, lg, material }
    }

    /// Gross area `thickness * lg`; fails with `InvalidQuantity` when the
    /// product is negative.
    pub fn area(&self) -> (r: Result<Area, CalcError>)
        requires
            self.wf(),
        ensures
            match r {
                Ok(a) => self.thickness@.num * self.lg@.num >= 0 && a@ == rat_mul(
                    self.thickness@,
                    self.lg@,
                ) && a.wf(),
                Err(e) => self.thickness@.num * self.lg@.num < 0 && e
                    == CalcError::InvalidQuantity,
            },
    {
        proof {
            lemma_mul_bound(self.thickness@.num, self.lg@.num, 1_000_000_000, 1_000_000_000);
            lemma_mul_bound(self.thickness@.den, self.lg@.den, 1000, 1000);
        }
        self.thickness.mul_len(self.lg)
    }
}

} // verus!
