use vstd::prelude::*;

verus! {

/// Why a heat index could not be computed.
#[derive(Debug, Clone, Copy, PartialEq, Eq, Structural)]
pub enum HeatIndexError {
    /// The temperature could not be read as a float, or it is not finite.
    InvalidTemperature,
    /// The relative humidity could not be read as a float, or it is not finite.
    InvalidRelativeHumidity,
    /// The relative humidity lies outside 0 ..= 100 percent.
    RelativeHumidityOutOfRange,
}

/// Which formula a heat index is read from.
#[derive(Debug, Clone, Copy, PartialEq, Eq, Structural)]
pub enum HeatIndexRoute {
    /// The simple Steadman-style estimate, when it is below 80 °F.
    Steadman,
    /// The Rothfusz regression as it stands.
    Rothfusz,
    /// The Rothfusz regression less the low-humidity adjustment (humidity
    /// below 13 % at 80 ..= 112 °F).
    RothfuszLowHumidity,
    /// The Rothfusz regression plus the high-humidity adjustment (humidity
    /// above 85 % at 80 ..= 87 °F).
    RothfuszHighHumidity,
}

/// Decides how a heat index is obtained from the outcomes of the tests on its
/// inputs, which were read: the first failed input check (temperature
/// finite, humidity finite, humidity within 0 ..= 100), else the Steadman
/// estimate when it is below 80 °F, else the Rothfusz regression, adjusted
/// for low humidity in its band, or else for high humidity in its band.
pub fn heat_index_route(
    temperature_finite: bool,
    humidity_finite: bool,
    humidity_in_range: bool,
    steadman_below_80: bool,
    humidity_below_13: bool,
    temperature_80_to_112: bool,
    humidity_above_85: bool,
    temperature_80_to_87: bool,
) -> (res: Result<HeatIndexRoute, HeatIndexError>)
    ensures
        res == Err::<HeatIndexRoute, HeatIndexError>(HeatIndexError::InvalidTemperature)
            <==> !temperature_finite,
        res == Err::<HeatIndexRoute, HeatIndexError>(HeatIndexError::InvalidRelativeHumidity)
            <==> temperature_finite && !humidity_finite,
        res == Err::<HeatIndexRoute, HeatIndexError>(HeatIndexError::RelativeHumidityOutOfRange)
            <==> temperature_finite && humidity_finite && !humidity_in_range,
        res is Ok <==> temperature_finite && humidity_finite && humidity_in_range,
        res is Ok ==> {
            &&& res == Ok::<HeatIndexRoute, HeatIndexError>(HeatIndexRoute::Steadman)
                <==> steadman_below_80
            &&& res == Ok::<HeatIndexRoute, HeatIndexError>(HeatIndexRoute::RothfuszLowHumidity)
                <==> !steadman_below_80 && humidity_below_13 && temperature_80_to_112
            &&& res == Ok::<HeatIndexRoute, HeatIndexError>(HeatIndexRoute::RothfuszHighHumidity)
                <==> !steadman_below_80 && !(humidity_below_13 && temperature_80_to_112)
                && humidity_above_85 && temperature_80_to_87
            &&& res == Ok::<HeatIndexRoute, HeatIndexError>(HeatIndexRoute::Rothfusz)
                <==> !steadman_below_80 && !(humidity_below_13 && temperature_80_to_112) && !(
            humidity_above_85 && temperature_80_to_87)
        },
{
    if !temperature_finite {
        return Err(HeatIndexError::InvalidTemperature);
    }
    if !humidity_finite {
        return Err(HeatIndexError::InvalidRelativeHumidity);
    }
    if !humidity_in_range {
        return Err(HeatIndexError::RelativeHumidityOutOfRange);
    }
    if steadman_below_80 {
        return Ok(HeatIndexRoute::Steadman);
    }
    if humidity_below_13 && temperature_80_to_112 {
        Ok(HeatIndexRoute::RothfuszLowHumidity)
    } else if humidity_above_85 && temperature_80_to_87 {
        Ok(HeatIndexRoute::RothfuszHighHumidity)
    } else {
        Ok(HeatIndexRoute::Rothfusz)
    }
}

} // verus!
