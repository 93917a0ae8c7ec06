use vstd::prelude::*;

verus! {

/// Failures that a calibration reports instead of producing garbage.
#[derive(Clone, Copy, Debug, PartialEq, Eq, Structural)]
pub enum CalibError {
    /// The observation lists disagree with the number of images or of
    /// target points, or a parameter vector has the wrong length.
    DimensionMismatch,
    /// A point lies on the camera's focal plane (`z` is zero), so it has
    /// no projection.
    DegenerateGeometry,
}

impl CalibError {
    /// A short human-readable name of the error.
    pub fn message(&self) -> (r: String)
        ensures
            *self == CalibError::DimensionMismatch ==> r@ == "dimension mismatch"@,
            *self == CalibError::DegenerateGeometry ==> r@ == "degenerate geometry"@,
    {
        match self {
            CalibError::DimensionMismatch => String::from_str("dimension mismatch"),
            CalibError::DegenerateGeometry => String::from_str("degenerate geometry"),
        }
    }
}

} // verus!
