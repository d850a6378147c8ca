use vstd::prelude::*;

use super::actual_vapor_pressure::ActualVaporPressureError;
use super::saturated_vapor_pressure::SaturationVaporPressureError;

verus! {

/// Why a mixing ratio could not be computed from a pressure and a temperature.
#[derive(Debug, Clone, Copy, PartialEq, Eq, Structural)]
pub enum MixingRatioError {
    /// The pressure could not be read, is not positive, or does not exceed
    /// the vapor pressure at the given temperature.
    InvalidPressure,
    /// The temperature could not be read as a float, or it is not finite.
    InvalidTemperature,
    /// The temperature lies outside -35 °C ..= 45 °C.
    TemperatureOutOfRange,
}

/// The mixing-ratio failure reported when the actual vapor pressure at the
/// dew point fails: each kind of temperature failure keeps its kind.
pub open spec fn mixing_ratio_error_of_actual(err: ActualVaporPressureError) -> MixingRatioError {
    match err {
        ActualVaporPressureError::InvalidTemperature => MixingRatioError::InvalidTemperature,
        ActualVaporPressureError::TemperatureOutOfRange => MixingRatioError::TemperatureOutOfRange,
    }
}

/// The mixing-ratio failure reported when the saturation vapor pressure at
/// the air temperature fails: each kind of temperature failure keeps its kind.
pub open spec fn mixing_ratio_error_of_saturation(
    err: SaturationVaporPressureError,
) -> MixingRatioError {
    match err {
        SaturationVaporPressureError::InvalidTemperature => MixingRatioError::InvalidTemperature,
        SaturationVaporPressureError::TemperatureOutOfRange => {
            MixingRatioError::TemperatureOutOfRange
        },
    }
}

impl MixingRatioError {
    /// Turns a failure of the actual vapor pressure (the first step of the
    /// actual mixing ratio) into the mixing ratio's own failure.
    pub fn from_actual_vapor_pressure_error(err: ActualVaporPressureError) -> (res: Self)
        ensures
            res == mixing_ratio_error_of_actual(err),
    {
        match err {
            ActualVaporPressureError::InvalidTemperature => MixingRatioError::InvalidTemperature,
            ActualVaporPressureError::TemperatureOutOfRange => {
                MixingRatioError::TemperatureOutOfRange
            },
        }
    }

    /// Turns a failure of the saturation vapor pressure (the first step of
    /// the saturated mixing ratio) into the mixing ratio's own failure.
    pub fn from_saturation_vapor_pressure_error(err: SaturationVaporPressureError) -> (res: Self)
        ensures
            res == mixing_ratio_error_of_saturation(err),
    {
        match err {
            SaturationVaporPressureError::InvalidTemperature => {
                MixingRatioError::InvalidTemperature
            },
            SaturationVaporPressureError::TemperatureOutOfRange => {
                MixingRatioError::TemperatureOutOfRange
            },
        }
    }
}

/// Distinct vapor-pressure failures stay distinct as mixing-ratio failures,
/// for the actual and for the saturation vapor pressure alike, so a caller
/// can always tell an unreadable temperature from one out of range; a
/// temperature out of range is reported as out of range and nothing else is;
/// and a failed vapor pressure is never reported as a bad pressure.
pub proof fn lemma_mixing_ratio_errors_keep_their_kind(
    a: ActualVaporPressureError,
    b: ActualVaporPressureError,
    s: SaturationVaporPressureError,
    t: SaturationVaporPressureError,
)
    ensures
        mixing_ratio_error_of_actual(a) == mixing_ratio_error_of_actual(b) ==> a == b,
        mixing_ratio_error_of_saturation(s) == mixing_ratio_error_of_saturation(t) ==> s == t,
        mixing_ratio_error_of_actual(a) != MixingRatioError::InvalidPressure,
        mixing_ratio_error_of_saturation(s) != MixingRatioError::InvalidPressure,
        (mixing_ratio_error_of_actual(a) == MixingRatioError::TemperatureOutOfRange) <==> (a
            == ActualVaporPressureError::TemperatureOutOfRange),
        (mixing_ratio_error_of_saturation(s) == MixingRatioError::TemperatureOutOfRange) <==> (s
            == SaturationVaporPressureError::TemperatureOutOfRange),
{
}

/// The failure an actual mixing ratio reports for inputs that were read, in
/// the order of the checks: pressure at most zero, then the translated
/// failure of the actual vapor pressure at the dew point, then a vapor
/// pressure that reaches the pressure; `None` when all pass.
pub fn actual_mixing_ratio_error(
    pressure_at_most_zero: bool,
    vapor: Option<ActualVaporPressureError>,
    vapor_at_least_pressure: bool,
) -> (res: Option<MixingRatioError>)
    ensures
        res == if pressure_at_most_zero {
            Some(MixingRatioError::InvalidPressure)
        } else if vapor is Some {
            Some(mixing_ratio_error_of_actual(vapor.unwrap()))
        } else if vapor_at_least_pressure {
            Some(MixingRatioError::InvalidPressure)
        } else {
            None
        },
        res == Some(MixingRatioError::InvalidPressure) <==> pressure_at_most_zero || (vapor is None
            && vapor_at_least_pressure),
        res is None <==> !pressure_at_most_zero && vapor is None && !vapor_at_least_pressure,
{
    if pressure_at_most_zero {
        return Some(MixingRatioError::InvalidPressure);
    }
    if let Some(err) = vapor {
        return Some(MixingRatioError::from_actual_vapor_pressure_error(err));
    }
    if vapor_at_least_pressure {
        return Some(MixingRatioError::InvalidPressure);
    }
    None
}

/// The failure a saturated mixing ratio reports for inputs that were read, in
/// the order of the checks: pressure at most zero, then the translated
/// failure of the saturation vapor pressure at the temperature, then a vapor
/// pressure that reaches the pressure; `None` when all pass.
pub fn saturated_mixing_ratio_error(
    pressure_at_most_zero: bool,
    vapor: Option<SaturationVaporPressureError>,
    vapor_at_least_pressure: bool,
) -> (res: Option<MixingRatioError>)
    ensures
        res == if pressure_at_most_zero {
            Some(MixingRatioError::InvalidPressure)
        } else if vapor is Some {
            Some(mixing_ratio_error_of_saturation(vapor.unwrap()))
        } else if vapor_at_least_pressure {
            Some(MixingRatioError::InvalidPressure)
        } else {
            None
        },
        res == Some(MixingRatioError::InvalidPressure) <==> pressure_at_most_zero || (vapor is None
            && vapor_at_least_pressure),
        res is None <==> !pressure_at_most_zero && vapor is None && !vapor_at_least_pressure,
{
    if pressure_at_most_zero {
        return Some(MixingRatioError::InvalidPressure);
    }
    if let Some(err) = vapor {
        return Some(MixingRatioError::from_saturation_vapor_pressure_error(err));
    }
    if vapor_at_least_pressure {
        return Some(MixingRatioError::InvalidPressure);
    }
    None
}

} // verus!
