use vstd::prelude::*;

verus! {

/// Why a saturation vapor pressure could not be computed from a temperature.
#[derive(Debug, Clone, Copy, PartialEq, Eq, Structural)]
pub enum SaturationVaporPressureError {
    /// The temperature could not be read as a float, or it is not finite.
    InvalidTemperature,
    /// The temperature lies outside -35 °C ..= 45 °C.
    TemperatureOutOfRange,
}

/// The failure a saturation vapor pressure reports for a temperature that was
/// read: not finite first, then outside -35 °C ..= 45 °C; `None` when usable.
pub fn saturation_vapor_pressure_input_error(temperature_finite: bool, temperature_in_range: bool)
    -> (res: Option<SaturationVaporPressureError>)
    ensures
        res == Some(SaturationVaporPressureError::InvalidTemperature) <==> !temperature_finite,
        res == Some(SaturationVaporPressureError::TemperatureOutOfRange) <==> temperature_finite
            && !temperature_in_range,
        res is None <==> temperature_finite && temperature_in_range,
{
    if !temperature_finite {
        return Some(SaturationVaporPressureError::InvalidTemperature);
    }
    if !temperature_in_range {
        return Some(SaturationVaporPressureError::TemperatureOutOfRange);
    }
    None
}

} // verus!
