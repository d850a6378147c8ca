use vstd::prelude::*;

use super::heat_index::HeatIndexError;
use super::wind_chill::WindChillError;

verus! {

/// Why an apparent temperature could not be computed.
#[derive(Debug, Clone, Copy, PartialEq, Eq, Structural)]
pub enum ApparentTemperatureError {
    /// The temperature could not be read as a float, or it is not finite.
    InvalidTemperature,
    /// The relative humidity could not be read as a float, or it is not finite.
    InvalidRelativeHumidity,
    /// The wind speed could not be read as a float, or it is not finite.
    InvalidWindSpeed,
    /// The relative humidity lies outside 0 ..= 100 percent.
    RelativeHumidityOutOfRange,
    /// The heat index, used above 80 °F, failed.
    HeatIndexError(HeatIndexError),
    /// The wind chill, used at or below 50 °F with wind above 3 mph, failed.
    WindChillError(WindChillError),
}

/// Which quantity an apparent temperature is read from.
#[derive(Debug, Clone, Copy, PartialEq, Eq, Structural)]
pub enum ApparentRoute {
    /// The air temperature itself.
    AirTemperature,
    /// The wind chill of the air temperature and the wind speed.
    WindChill,
    /// The heat index of the air temperature and the relative humidity.
    HeatIndex,
}

/// The outcome of the apparent-temperature rules, given the outcome of each
/// test they make on the inputs: the first failed input check in the order
/// temperature finite, humidity finite, wind finite, humidity within
/// 0 ..= 100; otherwise wind chill at or below 50 °F (the air temperature
/// itself in wind of at most 3 mph), heat index above 80 °F, and the air
/// temperature in between.
pub open spec fn spec_apparent_route(
    temperature_finite: bool,
    humidity_finite: bool,
    wind_finite: bool,
    humidity_in_range: bool,
    temperature_at_most_50: bool,
    wind_at_most_3: bool,
    temperature_above_80: bool,
) -> Result<ApparentRoute, ApparentTemperatureError> {
    if !temperature_finite {
        Err(ApparentTemperatureError::InvalidTemperature)
    } else if !humidity_finite {
        Err(ApparentTemperatureError::InvalidRelativeHumidity)
    } else if !wind_finite {
        Err(ApparentTemperatureError::InvalidWindSpeed)
    } else if !humidity_in_range {
        Err(ApparentTemperatureError::RelativeHumidityOutOfRange)
    } else if temperature_at_most_50 {
        if wind_at_most_3 {
            Ok(ApparentRoute::AirTemperature)
        } else {
            Ok(ApparentRoute::WindChill)
        }
    } else if temperature_above_80 {
        Ok(ApparentRoute::HeatIndex)
    } else {
        Ok(ApparentRoute::AirTemperature)
    }
}

/// Decides how an apparent temperature is obtained from the outcomes of the
/// tests on its inputs: which input failure is reported, or which quantity
/// the apparent temperature is read from.
pub fn apparent_route(
    temperature_finite: bool,
    humidity_finite: bool,
    wind_finite: bool,
    humidity_in_range: bool,
    temperature_at_most_50: bool,
    wind_at_most_3: bool,
    temperature_above_80: bool,
) -> (res: Result<ApparentRoute, ApparentTemperatureError>)
    ensures
        res == spec_apparent_route(
            temperature_finite,
            humidity_finite,
            wind_finite,
            humidity_in_range,
            temperature_at_most_50,
            wind_at_most_3,
            temperature_above_80,
        ),
        res == Err::<ApparentRoute, ApparentTemperatureError>(
            ApparentTemperatureError::InvalidTemperature,
        ) <==> !temperature_finite,
        res == Err::<ApparentRoute, ApparentTemperatureError>(
            ApparentTemperatureError::InvalidRelativeHumidity,
        ) <==> temperature_finite && !humidity_finite,
        res == Err::<ApparentRoute, ApparentTemperatureError>(
            ApparentTemperatureError::InvalidWindSpeed,
        ) <==> temperature_finite && humidity_finite && !wind_finite,
        res == Err::<ApparentRoute, ApparentTemperatureError>(
            ApparentTemperatureError::RelativeHumidityOutOfRange,
        ) <==> temperature_finite && humidity_finite && wind_finite && !humidity_in_range,
{
    if !temperature_finite {
        return Err(ApparentTemperatureError::InvalidTemperature);
    }
    if !humidity_finite {
        return Err(ApparentTemperatureError::InvalidRelativeHumidity);
    }
    if !wind_finite {
        return Err(ApparentTemperatureError::InvalidWindSpeed);
    }
    if !humidity_in_range {
        return Err(ApparentTemperatureError::RelativeHumidityOutOfRange);
    }
    if temperature_at_most_50 {
        if wind_at_most_3 {
            return Ok(ApparentRoute::AirTemperature);
        }
        return Ok(ApparentRoute::WindChill);
    }
    if temperature_above_80 {
        return Ok(ApparentRoute::HeatIndex);
    }
    Ok(ApparentRoute::AirTemperature)
}

/// The apparent temperature succeeds exactly when all four input checks pass;
/// for inputs that can occur together (a temperature at most 50 °F is not
/// above 80 °F), wind chill is used exactly at or below 50 °F with wind above
/// 3 mph, heat index exactly above 80 °F, and the air temperature otherwise,
/// and neither formula is ever applied in the 50 °F ..= 80 °F band.
pub proof fn lemma_apparent_route_table(
    temperature_finite: bool,
    humidity_finite: bool,
    wind_finite: bool,
    humidity_in_range: bool,
    temperature_at_most_50: bool,
    wind_at_most_3: bool,
    temperature_above_80: bool,
)
    requires
        temperature_at_most_50 ==> !temperature_above_80,
    ensures
        ({
            let res = spec_apparent_route(
                temperature_finite,
                humidity_finite,
                wind_finite,
                humidity_in_range,
                temperature_at_most_50,
                wind_at_most_3,
                temperature_above_80,
            );
            let valid = temperature_finite && humidity_finite && wind_finite && humidity_in_range;
            &&& res is Ok <==> valid
            &&& res == Ok::<ApparentRoute, ApparentTemperatureError>(ApparentRoute::WindChill)
                <==> (valid && temperature_at_most_50 && !wind_at_most_3)
            &&& res == Ok::<ApparentRoute, ApparentTemperatureError>(ApparentRoute::HeatIndex)
                <==> (valid && temperature_above_80)
            &&& res == Ok::<ApparentRoute, ApparentTemperatureError>(
                ApparentRoute::AirTemperature,
            ) <==> (valid && ((temperature_at_most_50 && wind_at_most_3) || (
            !temperature_at_most_50 && !temperature_above_80)))
        }),
{
}

/// Each input failure of the apparent temperature is reported exactly when
/// its check is the first to fail, whatever the temperature band: a
/// non-finite temperature, then a non-finite humidity, then a non-finite
/// wind, then a humidity outside 0 ..= 100.
pub proof fn lemma_apparent_route_errors(
    temperature_finite: bool,
    humidity_finite: bool,
    wind_finite: bool,
    humidity_in_range: bool,
    temperature_at_most_50: bool,
    wind_at_most_3: bool,
    temperature_above_80: bool,
)
    ensures
        ({
            let res = spec_apparent_route(
                temperature_finite,
                humidity_finite,
                wind_finite,
                humidity_in_range,
                temperature_at_most_50,
                wind_at_most_3,
                temperature_above_80,
            );
            &&& res == Err::<ApparentRoute, ApparentTemperatureError>(
                ApparentTemperatureError::InvalidTemperature,
            ) <==> !temperature_finite
            &&& res == Err::<ApparentRoute, ApparentTemperatureError>(
                ApparentTemperatureError::InvalidRelativeHumidity,
            ) <==> temperature_finite && !humidity_finite
            &&& res == Err::<ApparentRoute, ApparentTemperatureError>(
                ApparentTemperatureError::InvalidWindSpeed,
            ) <==> temperature_finite && humidity_finite && !wind_finite
            &&& res == Err::<ApparentRoute, ApparentTemperatureError>(
                ApparentTemperatureError::RelativeHumidityOutOfRange,
            ) <==> temperature_finite && humidity_finite && wind_finite && !humidity_in_range
            &&& res is Ok <==> temperature_finite && humidity_finite && wind_finite
                && humidity_in_range
        }),
{
}

} // verus!
