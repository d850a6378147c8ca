use vstd::prelude::*;

verus! {

/// Why a height could not be computed from a geopotential.
#[derive(Debug, Clone, Copy, PartialEq, Eq, Structural)]
pub enum GeopotentialError {
    /// A height could not be read as a float, or it is not finite.
    InvalidHeight,
    /// A height is negative.
    HeightOutOfRange,
    /// The geopotential could not be read as a float, or it is not finite.
    InvalidGeopotential,
    /// The geopotential is negative, or it stands for a height at or beyond
    /// the radius of the Earth.
    GeopotentialOutOfRange,
}

/// The failure a geometric height reports for a geopotential that was read,
/// in the order of the checks: not finite, negative, then a geopotential
/// height at or beyond the radius of the Earth; `None` when all pass.
pub fn geopotential_input_error(
    geopotential_finite: bool,
    geopotential_negative: bool,
    height_reaches_radius: bool,
) -> (res: Option<GeopotentialError>)
    ensures
        res == Some(GeopotentialError::InvalidGeopotential) <==> !geopotential_finite,
        res == Some(GeopotentialError::GeopotentialOutOfRange) <==> geopotential_finite && (
        geopotential_negative || height_reaches_radius),
        res is None <==> geopotential_finite && !geopotential_negative && !height_reaches_radius,
{
    if !geopotential_finite {
        return Some(GeopotentialError::InvalidGeopotential);
    }
    if geopotential_negative {
        return Some(GeopotentialError::GeopotentialOutOfRange);
    }
    if height_reaches_radius {
        return Some(GeopotentialError::GeopotentialOutOfRange);
    }
    None
}

} // verus!
