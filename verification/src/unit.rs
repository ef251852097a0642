//! Length and force units, each with an exact conversion rate to the
//! canonical base unit of its dimension.
//!
//! The canonical base units of the crate are the millimetre (lengths), the
//! square millimetre (areas), the newton (forces) and the newton per square
//! millimetre (stresses); every rate below is expressed against them.

use vstd::prelude::*;

verus! {

#[derive(Clone, Copy, Debug, PartialEq, Eq, Structural)]
pub enum LengthUnit {
    Meter,
    CentiMeter,
    MilliMeter,
}

impl LengthUnit {
    /// Millimetres per unit.
    pub open spec fn rate_spec(self) -> int {
        match self {
            LengthUnit::Meter => 1000,
            LengthUnit::CentiMeter => 10,
            LengthUnit::MilliMeter => 1,
        }
    }

    /// Square millimetres per squared unit.
    pub open spec fn area_rate_spec(self) -> int {
        self.rate_spec() * self.rate_spec()
    }

    /// Millimetres per unit.
    pub fn rate(&self) -> (r: i128)
        ensures
            r == self.rate_spec(),
            1 <= r <= 1000,
    {
        match self {
            LengthUnit::Meter => 1000,
            LengthUnit::CentiMeter => 10,
            LengthUnit::MilliMeter => 1,
        }
    }

    /// Square millimetres per squared unit.
    pub fn area_rate(&self) -> (r: i128)
        ensures
            r == self.area_rate_spec(),
            1 <= r <= 1_000_000,
    {
        match self {
            LengthUnit::Meter => 1_000_000,
            LengthUnit::CentiMeter => 100,
            LengthUnit::MilliMeter => 1,
        }
    }
}

impl Default for LengthUnit {
    fn default() -> (r: Self)
        ensures
            r == LengthUnit::Meter,
    {
        LengthUnit::Meter
    }
}

#[derive(Clone, Copy, Debug, PartialEq, Eq, Structural)]
pub enum ForceUnit {
    Newton,
    KiloNewton,
}

impl ForceUnit {
    /// Newtons per unit.
    pub open spec fn rate_spec(self) -> int {
        match self {
            ForceUnit::Newton => 1,
            ForceUnit::KiloNewton => 1000,
        }
    }

    /// Newtons per unit.
    pub fn rate(&self) -> (r: i128)
        ensures
            r == self.rate_spec(),
            1 <= r <= 1000,
    {
        match self {
            ForceUnit::Newton => 1,
            ForceUnit::KiloNewton => 1000,
        }
    }
}

impl Default for ForceUnit {
    fn default() -> (r: Self)
        ensures
            r == ForceUnit::Newton,
    {
        ForceUnit::Newton
    }
}

} // verus!
