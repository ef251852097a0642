//! Capacity-check results: the pass/fail judgment and the full intermediate
//! breakdown each check reports for the verification document.

use vstd::prelude::*;

use crate::rational::{rat_le, rat_of_int, RatModel, Rational};
use crate::value::{Area, Force, Length, Stress};

verus! {

/// A capacity ratio at most one passes.
#[derive(Clone, Copy, Debug, PartialEq, Eq, Structural)]
pub enum Judge {
    OK,
    NG,
}

/// The judgment a capacity ratio earns: `OK` if and only if the ratio is at
/// most one.
pub open spec fn judge_model(gamma: RatModel) -> Judge {
    if rat_le(gamma, rat_of_int(1)) {
        Judge::OK
    } else {
        Judge::NG
    }
}

impl Judge {
    pub fn name(&self) -> (r: &'static str)
        ensures
            self == Judge::OK ==> r@ == "OK"@,
            self == Judge::NG ==> r@ == "NG"@,
    {
        match self {
            Judge::OK => "OK",
            Judge::NG => "NG",
        }
    }
}

/// Breakdown of the base-metal yield check.
#[derive(Clone, Debug)]
pub struct BaseYieldResult {
    /// Member mark in the document.
    pub name: String,
    pub section_name: String,
    pub material_name: String,
    /// Gross cross-sectional area.
    pub a: Area,
    /// Effective (net) cross-sectional area.
    pub ae: Area,
    /// Short-term allowable yield stress.
    pub fy: Stress,
    /// Short-term allowable axial force.
    pub ny: Force,
    /// Short-term design axial force.
    pub nd: Force,
    /// Capacity ratio `nd / ny`.
    pub gamma: Rational,
    pub judge: Judge,
}

/// Breakdown of the bolt-group yield check.
#[derive(Clone, Debug)]
pub struct BoltYieldResult {
    pub name: String,
    pub diameter_name: String,
    pub material_name: String,
    /// Per-bolt short-term allowable shear force.
    pub qy: Force,
    pub num_bolts: u32,
    /// Short-term allowable axial force of the group.
    pub ny: Force,
    /// Short-term design axial force.
    pub nd: Force,
    /// Capacity ratio `nd / ny`.
    pub gamma: Rational,
    pub judge: Judge,
}

/// Breakdown of the gusset-plate yield check.
#[derive(Clone, Debug)]
pub struct GplYieldResult {
    pub name: String,
    pub material_name: String,
    /// Plate half-length dimension.
    pub lg: Length,
    pub thickness: Length,
    /// Gross effective area.
    pub a: Area,
    /// Net effective area after the hole deduction, clamped at zero.
    pub ae: Area,
    /// Short-term allowable yield stress.
    pub fy: Stress,
    /// Short-term allowable axial force.
    pub ny: Force,
    /// Short-term design axial force.
    pub nd: Force,
    /// Capacity ratio `nd / (ae * fy)`.
    pub gamma: Rational,
    pub judge: Judge,
}

/// The three check breakdowns of one brace, as last computed.
#[derive(Clone, Debug)]
pub struct BraceResult {
    pub base_yield_result: BaseYieldResult,
    pub bolt_yield_result: BoltYieldResult,
    pub gpl_yield_result: GplYieldResult,
}

} // verus!
