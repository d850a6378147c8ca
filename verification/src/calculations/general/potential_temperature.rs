use vstd::prelude::*;

verus! {

/// Why a potential temperature, or a temperature from a potential
/// temperature, could not be computed.
#[derive(Debug, Clone, Copy, PartialEq, Eq, Structural)]
pub enum PotentialTemperatureError {
    /// The pressure could not be read as a float, or it is not finite.
    InvalidPressure,
    /// The temperature could not be read as a float, or it is not finite.
    InvalidTemperature,
    /// The pressure is not positive.
    PressureOutOfRange,
}

/// The failure a potential temperature (or the temperature back from one)
/// reports for inputs that were read, in the order of the checks: pressure
/// not finite, temperature not finite, pressure at most zero; `None` when all
/// pass.
pub fn potential_temperature_input_error(
    pressure_finite: bool,
    temperature_finite: bool,
    pressure_at_most_zero: bool,
) -> (res: Option<PotentialTemperatureError>)
    ensures
        res == Some(PotentialTemperatureError::InvalidPressure) <==> !pressure_finite,
        res == Some(PotentialTemperatureError::InvalidTemperature) <==> pressure_finite
            && !temperature_finite,
        res == Some(PotentialTemperatureError::PressureOutOfRange) <==> pressure_finite
            && temperature_finite && pressure_at_most_zero,
        res is None <==> pressure_finite && temperature_finite && !pressure_at_most_zero,
{
    if !pressure_finite {
        return Some(PotentialTemperatureError::InvalidPressure);
    }
    if !temperature_finite {
        return Some(PotentialTemperatureError::InvalidTemperature);
    }
    if pressure_at_most_zero {
        return Some(PotentialTemperatureError::PressureOutOfRange);
    }
    None
}

} // verus!
