use vstd::prelude::*;

verus! {

/// Why a horizontal visibility could not be computed.
#[derive(Debug, Clone, Copy, PartialEq, Eq, Structural)]
pub enum VisibilityError {
    /// The pressure could not be read as a float.
    InvalidPressure,
    /// The temperature could not be read as a float.
    InvalidTemperature,
    /// The cloud water mixing ratio could not be read as a float.
    InvalidCloudWater,
    /// The rain water mixing ratio could not be read as a float.
    InvalidRainWater,
    /// The snow mixing ratio could not be read as a float.
    InvalidSnow,
    /// The cloud ice mixing ratio could not be read as a float.
    InvalidIce,
    /// The pressure is not positive.
    NonPositivePressure,
    /// The temperature is not positive.
    NonPositiveTemperature,
}

/// The failure a visibility reports for inputs that were read: pressure at
/// most zero first, then temperature at most zero; `None` when both pass.
pub fn visibility_input_error(pressure_at_most_zero: bool, temperature_at_most_zero: bool) -> (res:
    Option<VisibilityError>)
    ensures
        res == Some(VisibilityError::NonPositivePressure) <==> pressure_at_most_zero,
        res == Some(VisibilityError::NonPositiveTemperature) <==> !pressure_at_most_zero
            && temperature_at_most_zero,
        res is None <==> !pressure_at_most_zero && !temperature_at_most_zero,
{
    if pressure_at_most_zero {
        return Some(VisibilityError::NonPositivePressure);
    }
    if temperature_at_most_zero {
        return Some(VisibilityError::NonPositiveTemperature);
    }
    None
}

/// Whether the visibility is the 24 km cap rather than Koschmieder's ratio:
/// when there is no extinction (the coefficient is at most zero), or when the
/// ratio is not within 24 km.
pub fn visibility_capped(extinction_at_most_zero: bool, ratio_within_24: bool) -> (res: bool)
    ensures
        res == (extinction_at_most_zero || !ratio_within_24),
{
    extinction_at_most_zero || !ratio_within_24
}

} // verus!
