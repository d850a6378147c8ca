use vstd::prelude::*;

verus! {

/// Why a wind speed could not be computed from its components.
#[derive(Debug, Clone, Copy, PartialEq, Eq, Structural)]
pub enum WindSpeedError {
    /// A component could not be read as a float.
    InvalidComponent,
}

} // verus!
