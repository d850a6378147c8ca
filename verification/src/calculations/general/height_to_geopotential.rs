use vstd::prelude::*;

verus! {

/// Why a geopotential could not be computed from a geometric height.
#[derive(Debug, Clone, Copy, PartialEq, Eq, Structural)]
pub enum GeopotentialError {
    /// The height could not be read as a float, or it is not finite.
    InvalidHeight,
    /// The height is negative.
    HeightOutOfRange,
}

/// The failure a geopotential reports for a height that was read: not finite
/// first, then negative; `None` when both checks pass.
pub fn height_to_geopotential_input_error(height_finite: bool, height_negative: bool) -> (res:
    Option<GeopotentialError>)
    ensures
        res == Some(GeopotentialError::InvalidHeight) <==> !height_finite,
        res == Some(GeopotentialError::HeightOutOfRange) <==> height_finite && height_negative,
        res is None <==> height_finite && !height_negative,
{
    if !height_finite {
        return Some(GeopotentialError::InvalidHeight);
    }
    if height_negative {
        return Some(GeopotentialError::HeightOutOfRange);
    }
    None
}

} // verus!
