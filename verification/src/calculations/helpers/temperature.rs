use vstd::prelude::*;

verus! {

/// Why a temperature unit conversion failed.
#[derive(Debug, Clone, Copy, PartialEq, Eq, Structural)]
pub enum TemperatureConversionError {
    /// The temperature could not be read as a 64-bit float.
    InvalidTemperature,
}

} // verus!
