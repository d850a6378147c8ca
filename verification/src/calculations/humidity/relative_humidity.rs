use vstd::prelude::*;

use super::actual_vapor_pressure::ActualVaporPressureError;
use super::saturated_vapor_pressure::SaturationVaporPressureError;

verus! {

/// Why a relative humidity could not be computed, from a temperature and a
/// dew point or from two mixing ratios.
#[derive(Debug, Clone, Copy, PartialEq, Eq, Structural)]
pub enum RelativeHumidityError {
    /// The actual mixing ratio (or the temperature) could not be read, is not
    /// finite, or is negative.
    InvalidActualMixingRatio,
    /// The saturated mixing ratio (or the dew point) could not be read, is
    /// not finite, or is not positive.
    InvalidSaturatedMixingRatio,
    /// A temperature lies outside -35 °C ..= 45 °C.
    TemperatureOutOfRange,
    /// A temperature is not finite.
    InvalidTemperature,
    /// The dew point exceeds the air temperature.
    DewPointGreatherThanTemp,
}

/// The relative-humidity failure reported when the saturation vapor pressure
/// at the air temperature fails: each kind of temperature failure keeps its kind.
pub open spec fn relative_humidity_error_of_saturation(
    err: SaturationVaporPressureError,
) -> RelativeHumidityError {
    match err {
        SaturationVaporPressureError::TemperatureOutOfRange => {
            RelativeHumidityError::TemperatureOutOfRange
        },
        SaturationVaporPressureError::InvalidTemperature => {
            RelativeHumidityError::InvalidTemperature
        },
    }
}

/// The relative-humidity failure reported when the actual vapor pressure at
/// the dew point fails: each kind of temperature failure keeps its kind.
pub open spec fn relative_humidity_error_of_actual(
    err: ActualVaporPressureError,
) -> RelativeHumidityError {
    match err {
        ActualVaporPressureError::InvalidTemperature => RelativeHumidityError::InvalidTemperature,
        ActualVaporPressureError::TemperatureOutOfRange => {
            RelativeHumidityError::TemperatureOutOfRange
        },
    }
}

/// The failures that stand for a failed vapor pressure: a temperature that is
/// not finite or out of range.
pub open spec fn is_temperature_failure(err: RelativeHumidityError) -> bool {
    ||| err == RelativeHumidityError::InvalidTemperature
    ||| err == RelativeHumidityError::TemperatureOutOfRange
}

impl RelativeHumidityError {
    /// Turns a failure of the saturation vapor pressure at the air temperature
    /// into the relative humidity's own failure.
    pub fn from_saturation_vapor_pressure_error(err: SaturationVaporPressureError) -> (res: Self)
        ensures
            res == relative_humidity_error_of_saturation(err),
    {
        match err {
            SaturationVaporPressureError::TemperatureOutOfRange => {
                RelativeHumidityError::TemperatureOutOfRange
            },
            SaturationVaporPressureError::InvalidTemperature => {
                RelativeHumidityError::InvalidTemperature
            },
        }
    }

    /// Turns a failure of the actual vapor pressure at the dew point into the
    /// relative humidity's own failure.
    pub fn from_actual_vapor_pressure_error(err: ActualVaporPressureError) -> (res: Self)
        ensures
            res == relative_humidity_error_of_actual(err),
    {
        match err {
            ActualVaporPressureError::InvalidTemperature => {
                RelativeHumidityError::InvalidTemperature
            },
            ActualVaporPressureError::TemperatureOutOfRange => {
                RelativeHumidityError::TemperatureOutOfRange
            },
        }
    }
}

/// Distinct vapor-pressure failures stay distinct as relative-humidity
/// failures, for the saturation and the actual vapor pressure alike; a failed
/// vapor pressure is always reported as a temperature failure; and a
/// temperature out of range is reported as out of range and nothing else is.
pub proof fn lemma_relative_humidity_errors_keep_their_kind(
    s: SaturationVaporPressureError,
    t: SaturationVaporPressureError,
    a: ActualVaporPressureError,
    b: ActualVaporPressureError,
)
    ensures
        relative_humidity_error_of_saturation(s) == relative_humidity_error_of_saturation(t)
            ==> s == t,
        relative_humidity_error_of_actual(a) == relative_humidity_error_of_actual(b) ==> a == b,
        is_temperature_failure(relative_humidity_error_of_saturation(s)),
        is_temperature_failure(relative_humidity_error_of_actual(a)),
        (relative_humidity_error_of_saturation(s) == RelativeHumidityError::TemperatureOutOfRange)
            <==> (s == SaturationVaporPressureError::TemperatureOutOfRange),
        (relative_humidity_error_of_actual(a) == RelativeHumidityError::TemperatureOutOfRange)
            <==> (a == ActualVaporPressureError::TemperatureOutOfRange),
{
}

/// How a relative humidity from a temperature and a dew point is obtained.
#[derive(Debug, Clone, Copy, PartialEq, Eq, Structural)]
pub enum RelativeHumidityRoute {
    /// The dew point equals the temperature: the air is saturated, 100 %.
    Saturated,
    /// The ratio of the actual to the saturation vapor pressure, in percent.
    Ratio,
}

/// Decides how a relative humidity is obtained from a temperature and a dew
/// point that were read: saturated when they are equal, a failure when the
/// dew point is above the temperature, then the translated failure of the
/// saturation vapor pressure at the temperature, then that of the actual
/// vapor pressure at the dew point, and otherwise the ratio of the two.
pub fn relative_humidity_route(
    dewpoint_equals_temperature: bool,
    dewpoint_above_temperature: bool,
    saturation: Option<SaturationVaporPressureError>,
    actual: Option<ActualVaporPressureError>,
) -> (res: Result<RelativeHumidityRoute, RelativeHumidityError>)
    ensures
        res == if dewpoint_equals_temperature {
            Ok(RelativeHumidityRoute::Saturated)
        } else if dewpoint_above_temperature {
            Err(RelativeHumidityError::DewPointGreatherThanTemp)
        } else if saturation is Some {
            Err(relative_humidity_error_of_saturation(saturation.unwrap()))
        } else if actual is Some {
            Err(relative_humidity_error_of_actual(actual.unwrap()))
        } else {
            Ok(RelativeHumidityRoute::Ratio)
        },
        res == Ok::<RelativeHumidityRoute, RelativeHumidityError>(RelativeHumidityRoute::Ratio)
            <==> !dewpoint_equals_temperature && !dewpoint_above_temperature && saturation is None
            && actual is None,
{
    if dewpoint_equals_temperature {
        return Ok(RelativeHumidityRoute::Saturated);
    }
    if dewpoint_above_temperature {
        return Err(RelativeHumidityError::DewPointGreatherThanTemp);
    }
    if let Some(err) = saturation {
        return Err(RelativeHumidityError::from_saturation_vapor_pressure_error(err));
    }
    if let Some(err) = actual {
        return Err(RelativeHumidityError::from_actual_vapor_pressure_error(err));
    }
    Ok(RelativeHumidityRoute::Ratio)
}

/// The failure a relative humidity from mixing ratios reports for ratios
/// that were read: an actual ratio that is not finite or negative first,
/// then a saturated ratio that is not finite or at most zero; `None` when
/// both are usable.
pub fn relative_humidity_from_mixing_ratio_error(
    actual_finite: bool,
    actual_negative: bool,
    saturated_finite: bool,
    saturated_at_most_zero: bool,
) -> (res: Option<RelativeHumidityError>)
    ensures
        res == Some(RelativeHumidityError::InvalidActualMixingRatio) <==> !actual_finite
            || actual_negative,
        res == Some(RelativeHumidityError::InvalidSaturatedMixingRatio) <==> actual_finite
            && !actual_negative && (!saturated_finite || saturated_at_most_zero),
        res is None <==> actual_finite && !actual_negative && saturated_finite
            && !saturated_at_most_zero,
{
    if !actual_finite || actual_negative {
        return Some(RelativeHumidityError::InvalidActualMixingRatio);
    }
    if !saturated_finite || saturated_at_most_zero {
        return Some(RelativeHumidityError::InvalidSaturatedMixingRatio);
    }
    None
}

} // verus!
