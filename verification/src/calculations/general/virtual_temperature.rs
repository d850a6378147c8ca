use vstd::prelude::*;

verus! {

/// Why a virtual temperature could not be computed.
#[derive(Debug, Clone, Copy, PartialEq, Eq, Structural)]
pub enum VirtualTemperatureError {
    /// The temperature could not be read as a float.
    InvalidTemperature,
    /// The dew point could not be read as a float.
    InvalidDewPoint,
    /// The pressure could not be read as a float.
    InvalidPressure,
}

} // verus!
