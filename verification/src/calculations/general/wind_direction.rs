use vstd::prelude::*;

verus! {

/// Why a wind direction could not be computed from its components.
#[derive(Debug, Clone, Copy, PartialEq, Eq, Structural)]
pub enum WindDirectionError {
    /// A component could not be read as a float.
    InvalidComponent,
}

} // verus!
