use vstd::prelude::*;

verus! {

/// Why a height could not be computed from a pressure.
#[derive(Debug, Clone, Copy, PartialEq, Eq, Structural)]
pub enum PressureToHeightError {
    /// The pressure could not be read as a float.
    InvalidPressure,
    /// The pressure is negative.
    PressureOutOfRange,
}

/// The failure a height reports for a pressure that was read: a negative
/// pressure is out of range; `None` otherwise.
pub fn pressure_to_height_input_error(pressure_negative: bool) -> (res: Option<
    PressureToHeightError,
>)
    ensures
        res == Some(PressureToHeightError::PressureOutOfRange) <==> pressure_negative,
        res is None <==> !pressure_negative,
{
    if pressure_negative {
        Some(PressureToHeightError::PressureOutOfRange)
    } else {
        None
    }
}

} // verus!
