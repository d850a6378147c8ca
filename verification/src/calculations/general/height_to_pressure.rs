use vstd::prelude::*;

verus! {

/// Why a pressure could not be computed from a height.
#[derive(Debug, Clone, Copy, PartialEq, Eq, Structural)]
pub enum HeightToPressureError {
    /// The height could not be read as a float, or it is not finite.
    InvalidHeight,
    /// The height is negative, or above the 11 000 m of the troposphere.
    HeightOutOfRange,
}

/// The failure a pressure reports for a height that was read: not finite
/// first, then negative or above the 11 000 m of the troposphere; `None`
/// when the height is usable.
pub fn height_to_pressure_input_error(
    height_finite: bool,
    height_negative: bool,
    height_above_11000: bool,
) -> (res: Option<HeightToPressureError>)
    ensures
        res == Some(HeightToPressureError::InvalidHeight) <==> !height_finite,
        res == Some(HeightToPressureError::HeightOutOfRange) <==> height_finite && (height_negative
            || height_above_11000),
        res is None <==> height_finite && !height_negative && !height_above_11000,
{
    if !height_finite {
        return Some(HeightToPressureError::InvalidHeight);
    }
    if height_negative {
        return Some(HeightToPressureError::HeightOutOfRange);
    }
    if height_above_11000 {
        return Some(HeightToPressureError::HeightOutOfRange);
    }
    None
}

} // verus!
