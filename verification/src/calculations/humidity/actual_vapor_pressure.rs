use vstd::prelude::*;

verus! {

/// Why an actual vapor pressure could not be computed from a dew point.
#[derive(Debug, Clone, Copy, PartialEq, Eq, Structural)]
pub enum ActualVaporPressureError {
    /// The dew point could not be read as a float, or it is not finite.
    InvalidTemperature,
    /// The dew point lies outside -35 °C ..= 45 °C.
    TemperatureOutOfRange,
}

/// The failure an actual vapor pressure reports for a dew point that was
/// read: not finite first, then outside -35 °C ..= 45 °C; `None` when usable.
pub fn actual_vapor_pressure_input_error(dewpoint_finite: bool, dewpoint_in_range: bool) -> (res:
    Option<ActualVaporPressureError>)
    ensures
        res == Some(ActualVaporPressureError::InvalidTemperature) <==> !dewpoint_finite,
        res == Some(ActualVaporPressureError::TemperatureOutOfRange) <==> dewpoint_finite
            && !dewpoint_in_range,
        res is None <==> dewpoint_finite && dewpoint_in_range,
{
    if !dewpoint_finite {
        return Some(ActualVaporPressureError::InvalidTemperature);
    }
    if !dewpoint_in_range {
        return Some(ActualVaporPressureError::TemperatureOutOfRange);
    }
    None
}

} // verus!
