use rustweather::calculations::general::{
    ApparentTemperatureError, HeatIndexError, WindChillError, WindComponentError, WindShearError,
};
use rustweather::calculations::humidity::{
    ActualVaporPressureError, DewPointError, MixingRatioError, RelativeHumidityError,
    SaturationVaporPressureError, WetBulbError,
};

#[test]
fn mixing_ratio_from_actual_vapor_pressure_keeps_invalid_temperature() {
    assert_eq!(
        MixingRatioError::from_actual_vapor_pressure_error(
            ActualVaporPressureError::InvalidTemperature
        ),
        MixingRatioError::InvalidTemperature
    );
}

#[test]
fn mixing_ratio_from_actual_vapor_pressure_keeps_out_of_range() {
    assert_eq!(
        MixingRatioError::from_actual_vapor_pressure_error(
            ActualVaporPressureError::TemperatureOutOfRange
        ),
        MixingRatioError::TemperatureOutOfRange
    );
}

#[test]
fn mixing_ratio_from_saturation_vapor_pressure_keeps_invalid_temperature() {
    assert_eq!(
        MixingRatioError::from_saturation_vapor_pressure_error(
            SaturationVaporPressureError::InvalidTemperature
        ),
        MixingRatioError::InvalidTemperature
    );
}

#[test]
fn mixing_ratio_from_saturation_vapor_pressure_keeps_out_of_range() {
    assert_eq!(
        MixingRatioError::from_saturation_vapor_pressure_error(
            SaturationVaporPressureError::TemperatureOutOfRange
        ),
        MixingRatioError::TemperatureOutOfRange
    );
}

#[test]
fn mixing_ratio_translation_never_blames_the_pressure() {
    for err in [
        ActualVaporPressureError::InvalidTemperature,
        ActualVaporPressureError::TemperatureOutOfRange,
    ] {
        assert_ne!(
            MixingRatioError::from_actual_vapor_pressure_error(err),
            MixingRatioError::InvalidPressure
        );
    }
    for err in [
        SaturationVaporPressureError::InvalidTemperature,
        SaturationVaporPressureError::TemperatureOutOfRange,
    ] {
        assert_ne!(
            MixingRatioError::from_saturation_vapor_pressure_error(err),
            MixingRatioError::InvalidPressure
        );
    }
}

#[test]
fn mixing_ratio_translation_keeps_kinds_apart() {
    assert_ne!(
        MixingRatioError::from_actual_vapor_pressure_error(
            ActualVaporPressureError::InvalidTemperature
        ),
        MixingRatioError::from_actual_vapor_pressure_error(
            ActualVaporPressureError::TemperatureOutOfRange
        )
    );
    assert_ne!(
        MixingRatioError::from_saturation_vapor_pressure_error(
            SaturationVaporPressureError::InvalidTemperature
        ),
        MixingRatioError::from_saturation_vapor_pressure_error(
            SaturationVaporPressureError::TemperatureOutOfRange
        )
    );
}

#[test]
fn relative_humidity_from_saturation_vapor_pressure_keeps_kinds() {
    assert_eq!(
        RelativeHumidityError::from_saturation_vapor_pressure_error(
            SaturationVaporPressureError::TemperatureOutOfRange
        ),
        RelativeHumidityError::TemperatureOutOfRange
    );
    assert_eq!(
        RelativeHumidityError::from_saturation_vapor_pressure_error(
            SaturationVaporPressureError::InvalidTemperature
        ),
        RelativeHumidityError::InvalidTemperature
    );
}

#[test]
fn relative_humidity_from_actual_vapor_pressure_keeps_kinds() {
    assert_eq!(
        RelativeHumidityError::from_actual_vapor_pressure_error(
            ActualVaporPressureError::InvalidTemperature
        ),
        RelativeHumidityError::InvalidTemperature
    );
    assert_eq!(
        RelativeHumidityError::from_actual_vapor_pressure_error(
            ActualVaporPressureError::TemperatureOutOfRange
        ),
        RelativeHumidityError::TemperatureOutOfRange
    );
}

#[test]
fn relative_humidity_translation_only_reports_temperature_failures() {
    let all = [
        RelativeHumidityError::from_saturation_vapor_pressure_error(
            SaturationVaporPressureError::InvalidTemperature,
        ),
        RelativeHumidityError::from_saturation_vapor_pressure_error(
            SaturationVaporPressureError::TemperatureOutOfRange,
        ),
        RelativeHumidityError::from_actual_vapor_pressure_error(
            ActualVaporPressureError::InvalidTemperature,
        ),
        RelativeHumidityError::from_actual_vapor_pressure_error(
            ActualVaporPressureError::TemperatureOutOfRange,
        ),
    ];
    for err in all {
        assert!(matches!(
            err,
            RelativeHumidityError::InvalidTemperature | RelativeHumidityError::TemperatureOutOfRange
        ));
    }
}

#[test]
fn wind_shear_from_any_component_failure_is_invalid_component() {
    assert_eq!(
        WindShearError::from_wind_component_error(WindComponentError::InvalidSpeed),
        WindShearError::InvalidComponent
    );
    assert_eq!(
        WindShearError::from_wind_component_error(WindComponentError::InvalidDirection),
        WindShearError::InvalidComponent
    );
}

#[test]
fn nested_failures_compare_by_their_cause() {
    assert_eq!(
        ApparentTemperatureError::WindChillError(WindChillError::TemperatureTooHigh),
        ApparentTemperatureError::WindChillError(WindChillError::TemperatureTooHigh)
    );
    assert_ne!(
        ApparentTemperatureError::WindChillError(WindChillError::TemperatureTooHigh),
        ApparentTemperatureError::WindChillError(WindChillError::WindSpeedTooLow)
    );
    assert_ne!(
        ApparentTemperatureError::HeatIndexError(HeatIndexError::InvalidTemperature),
        ApparentTemperatureError::InvalidTemperature
    );
    assert_eq!(
        DewPointError::SaturationVaporPressureError(
            SaturationVaporPressureError::TemperatureOutOfRange
        ),
        DewPointError::SaturationVaporPressureError(
            SaturationVaporPressureError::TemperatureOutOfRange
        )
    );
    assert_ne!(
        WetBulbError::SaturationVaporPressureError(
            SaturationVaporPressureError::InvalidTemperature
        ),
        WetBulbError::InvalidTemperature
    );
}

#[test]
fn failures_are_copied_by_value() {
    let err = MixingRatioError::TemperatureOutOfRange;
    let copy = err;
    assert_eq!(err, copy);
    assert_eq!(err.clone(), MixingRatioError::TemperatureOutOfRange);
    assert_eq!(format!("{:?}", err), "TemperatureOutOfRange");
}
