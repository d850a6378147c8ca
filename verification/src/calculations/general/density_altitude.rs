use vstd::prelude::*;

verus! {

/// Why a density altitude could not be computed.
#[derive(Debug, Clone, Copy, PartialEq, Eq, Structural)]
pub enum DensityAltitudeError {
    /// The pressure altitude could not be read as a float.
    InvalidPressureAltitude,
    /// The temperature could not be read as a float.
    InvalidTemperature,
}

} // verus!
