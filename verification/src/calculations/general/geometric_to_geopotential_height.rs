use vstd::prelude::*;

verus! {

/// Why a geopotential height could not be computed from a geometric height.
#[derive(Debug, Clone, Copy, PartialEq, Eq, Structural)]
pub enum GeopotentialHeightError {
    /// The height could not be read as a float.
    InvalidHeight,
    /// The height is negative.
    HeightOutOfRange,
}

/// The failure a geopotential height reports for a height that was read: a
/// negative height is out of range; `None` otherwise.
pub fn geometric_height_input_error(height_negative: bool) -> (res: Option<GeopotentialHeightError>)
    ensures
        res == Some(GeopotentialHeightError::HeightOutOfRange) <==> height_negative,
        res is None <==> !height_negative,
{
    if height_negative {
        Some(GeopotentialHeightError::HeightOutOfRange)
    } else {
        None
    }
}

} // verus!
