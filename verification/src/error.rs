//! The error taxonomy of the experiment harness.

use vstd::prelude::*;

verus! {

/// Why a generation or orchestration step was rejected.
///
/// Invalid parameters (a non-positive standard deviation) are detected
/// synchronously and never retried; dimension mismatches arise when columns
/// of unequal length are combined; a numeric-range failure arises when an
/// exact rational result does not fit the machine representation.
#[derive(Clone, Copy, Debug, PartialEq, Eq, Structural)]
pub enum SimError {
    /// `sigma_a`, the standard deviation of the confounder `v`, was not positive.
    SigmaANotPositive,
    /// `sigma_ex`, the standard deviation of the shock `e_x`, was not positive.
    SigmaExNotPositive,
    /// `sigma_ey`, the standard deviation of the shock `e_y`, was not positive.
    SigmaEyNotPositive,
    /// Columns that must share a length did not.
    DimensionMismatch,
    /// An exact rational result fell outside the representable range.
    NumericOverflow,
}

impl SimError {
    /// The descriptive text of this error.
    pub fn message(&self) -> (r: &'static str)
        ensures
            *self is SigmaANotPositive ==> r@ == "sigma_a must be positive"@,
            *self is SigmaExNotPositive ==> r@ == "sigma_ex must be positive"@,
            *self is SigmaEyNotPositive ==> r@ == "sigma_ey must be positive"@,
            *self is DimensionMismatch ==> r@ == "columns must share one length"@,
            *self is NumericOverflow ==> r@ == "exact arithmetic out of range"@,
    {
        match self {
            SimError::SigmaANotPositive => "sigma_a must be positive",
            SimError::SigmaExNotPositive => "sigma_ex must be positive",
            SimError::SigmaEyNotPositive => "sigma_ey must be positive",
            SimError::DimensionMismatch => "columns must share one length",
            SimError::NumericOverflow => "exact arithmetic out of range",
        }
    }
}

} // verus!
