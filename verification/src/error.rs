//! The recoverable error kinds surfaced by catalog lookups, quantity
//! constructors and capacity checks.

use vstd::prelude::*;

verus! {

#[derive(Clone, Copy, Debug, PartialEq, Eq, Structural)]
pub enum CalcError {
    /// A name handed to a setter is not in the relevant catalog.
    NotFound,
    /// A negative magnitude was handed to a constructor that requires a
    /// non-negative one.
    InvalidQuantity,
    /// A section/gauge combination for which no gauge table entry exists,
    /// or a configuration whose allowable capacity vanishes and therefore
    /// admits no capacity ratio.
    UnsupportedConfiguration,
}

impl CalcError {
    pub fn name(&self) -> (r: &'static str)
        ensures
            self == CalcError::NotFound ==> r@ == "not found"@,
            self == CalcError::InvalidQuantity ==> r@ == "invalid quantity"@,
            self == CalcError::UnsupportedConfiguration ==> r@ == "unsupported configuration"@,
    {
        match self {
            CalcError::NotFound => "not found",
            CalcError::InvalidQuantity => "invalid quantity",
            CalcError::UnsupportedConfiguration => "unsupported configuration",
        }
    }
}

} // verus!
