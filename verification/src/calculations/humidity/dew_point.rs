use vstd::prelude::*;

use super::saturated_vapor_pressure::SaturationVaporPressureError;

verus! {

/// Why a dew point could not be computed, from a vapor pressure or from a
/// temperature and a relative humidity.
#[derive(Debug, Clone, Copy, PartialEq, Eq, Structural)]
pub enum DewPointError {
    /// The vapor pressure (or the relative humidity) could not be read as a
    /// float, or the vapor pressure is not finite.
    InvalidVaporPressure,
    /// The vapor pressure is not positive.
    VaporPressureOutOfRange,
    /// The air temperature could not be read as a float.
    InvalidTemperature,
    /// The relative humidity lies outside 0 ..= 100 percent.
    InvalidRelHumidity,
    /// The saturation vapor pressure at the air temperature failed.
    SaturationVaporPressureError(SaturationVaporPressureError),
}

/// The failure a dew point from a vapor pressure reports for a vapor pressure
/// that was read: not finite first, then at most zero; `None` when usable.
pub fn dew_point_from_vapor_pressure_input_error(
    vapor_pressure_finite: bool,
    vapor_pressure_at_most_zero: bool,
) -> (res: Option<DewPointError>)
    ensures
        res == Some(DewPointError::InvalidVaporPressure) <==> !vapor_pressure_finite,
        res == Some(DewPointError::VaporPressureOutOfRange) <==> vapor_pressure_finite
            && vapor_pressure_at_most_zero,
        res is None <==> vapor_pressure_finite && !vapor_pressure_at_most_zero,
{
    if !vapor_pressure_finite {
        return Some(DewPointError::InvalidVaporPressure);
    }
    if vapor_pressure_at_most_zero {
        return Some(DewPointError::VaporPressureOutOfRange);
    }
    None
}

/// The failure a dew point from a temperature and a relative humidity
/// reports for inputs that were read: a humidity outside 0 ..= 100 first,
/// then the failure, if any, of the saturation vapor pressure at the
/// temperature; `None` when both succeed.
pub fn dew_point_from_temp_and_rh_error(
    humidity_in_range: bool,
    saturation: Option<SaturationVaporPressureError>,
) -> (res: Option<DewPointError>)
    ensures
        res == Some(DewPointError::InvalidRelHumidity) <==> !humidity_in_range,
        humidity_in_range && saturation is Some ==> res == Some(
            DewPointError::SaturationVaporPressureError(saturation.unwrap()),
        ),
        res matches Some(DewPointError::SaturationVaporPressureError(err)) ==> humidity_in_range
            && saturation == Some(err),
        res is None <==> humidity_in_range && saturation is None,
{
    if !humidity_in_range {
        return Some(DewPointError::InvalidRelHumidity);
    }
    match saturation {
        Some(err) => Some(DewPointError::SaturationVaporPressureError(err)),
        None => None,
    }
}

} // verus!
