//! The error taxonomy shared by every component.

use vstd::prelude::*;

verus! {

/// Why a construction or an update was refused.
#[derive(Debug, Clone, Copy, PartialEq, Eq, Structural)]
pub enum EsnError {
    /// A vector or matrix dimension differs from the configured one.
    DimensionMismatch { expected: usize, found: usize },
    /// The reservoir weight has spectral radius zero and cannot be rescaled.
    DegenerateReservoir,
    /// The regularised Gram matrix of a ridge solve has no inverse.
    SingularMatrix,
    /// A construction parameter lies outside its domain.
    InvalidParameter,
}

/// The result of comparing a found length with the expected one.
pub open spec fn dimension_check(expected: nat, found: nat) -> Result<(), EsnError> {
    if found == expected {
        Ok(())
    } else {
        Err(EsnError::DimensionMismatch { expected: expected as usize, found: found as usize })
    }
}

/// Accepts `found` exactly when it equals `expected`, and otherwise reports
/// both numbers.
pub fn check_dimension(expected: usize, found: usize) -> (r: Result<(), EsnError>)
    ensures
        r == dimension_check(expected as nat, found as nat),
    no_unwind
{
    if found == expected {
        Ok(())
    } else {
        Err(EsnError::DimensionMismatch { expected, found })
    }
}

} // verus!
