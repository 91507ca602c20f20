//! Errors of the attitude estimators.

use vstd::prelude::*;

verus! {

#[derive(Debug, Clone, Copy, PartialEq, Eq, Structural)]
pub enum AhrsError {
    /// The accelerometer reading has zero magnitude and cannot be normalised.
    NormalizationError,
}

} // verus!
