use vstd::prelude::*;

verus! {

/// Why a wind chill temperature could not be computed.
#[derive(Debug, Clone, Copy, PartialEq, Eq, Structural)]
pub enum WindChillError {
    /// The temperature could not be read as a float.
    InvalidTemperature,
    /// The wind speed could not be read as a float.
    InvalidWindSpeed,
    /// The temperature is above 50 °F, where the formula is not defined.
    TemperatureTooHigh,
    /// The wind speed is at most 3 mph, where the formula is not defined.
    WindSpeedTooLow,
}

/// The failure a wind chill reports for inputs that were read: too warm
/// (above 50 °F) first, then too calm (at most 3 mph); `None` when the
/// formula applies.
pub fn wind_chill_input_error(temperature_above_50: bool, wind_at_most_3: bool) -> (res: Option<
    WindChillError,
>)
    ensures
        res == Some(WindChillError::TemperatureTooHigh) <==> temperature_above_50,
        res == Some(WindChillError::WindSpeedTooLow) <==> !temperature_above_50 && wind_at_most_3,
        res is None <==> !temperature_above_50 && !wind_at_most_3,
{
    if temperature_above_50 {
        return Some(WindChillError::TemperatureTooHigh);
    }
    if wind_at_most_3 {
        return Some(WindChillError::WindSpeedTooLow);
    }
    None
}

} // verus!
