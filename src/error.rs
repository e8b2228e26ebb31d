//! Errors of the sizing searches.

use vstd::prelude::*;

verus! {

/// Why a sizing request produced no structure.
#[derive(Debug, Clone, Copy, PartialEq, Eq, Structural)]
pub enum SizingError {
    /// A footprint or height lies outside the range the structure allows.
    DimensionOutOfRange,
    /// A turbine footprint was even, so the shaft could not sit on the center.
    EvenFootprintRejected,
    /// The search space held no candidate that meets every constraint.
    NoFeasibleConfiguration,
}

} // verus!
