use rustweather::calculations::general::geopotential_to_height;
use rustweather::calculations::general::height_to_geopotential;
use rustweather::calculations::general::{
    DensityAltitudeError, GeopotentialError, GeopotentialHeightError, HeightToPressureError,
    PotentialTemperatureError, PressureToHeightError, VirtualTemperatureError, VisibilityError,
    WindDirectionError, WindSpeedError,
};
use rustweather::calculations::helpers::TemperatureConversionError;

#[test]
fn geopotential_failures_of_each_module_are_their_own_types() {
    let full: [GeopotentialError; 4] = [
        GeopotentialError::InvalidHeight,
        GeopotentialError::HeightOutOfRange,
        GeopotentialError::InvalidGeopotential,
        GeopotentialError::GeopotentialOutOfRange,
    ];
    let same_shape: [geopotential_to_height::GeopotentialError; 4] = [
        geopotential_to_height::GeopotentialError::InvalidHeight,
        geopotential_to_height::GeopotentialError::HeightOutOfRange,
        geopotential_to_height::GeopotentialError::InvalidGeopotential,
        geopotential_to_height::GeopotentialError::GeopotentialOutOfRange,
    ];
    let height_only: [height_to_geopotential::GeopotentialError; 2] = [
        height_to_geopotential::GeopotentialError::InvalidHeight,
        height_to_geopotential::GeopotentialError::HeightOutOfRange,
    ];
    for i in 0..4 {
        for j in 0..4 {
            assert_eq!(full[i] == full[j], i == j);
            assert_eq!(same_shape[i] == same_shape[j], i == j);
        }
    }
    assert_ne!(height_only[0], height_only[1]);
}

#[test]
fn single_kind_failures_print_their_kind() {
    assert_eq!(format!("{:?}", WindSpeedError::InvalidComponent), "InvalidComponent");
    assert_eq!(format!("{:?}", WindDirectionError::InvalidComponent), "InvalidComponent");
    assert_eq!(
        format!("{:?}", TemperatureConversionError::InvalidTemperature),
        "InvalidTemperature"
    );
}

#[test]
fn distinct_kinds_are_distinct() {
    assert_ne!(
        DensityAltitudeError::InvalidPressureAltitude,
        DensityAltitudeError::InvalidTemperature
    );
    assert_ne!(GeopotentialHeightError::InvalidHeight, GeopotentialHeightError::HeightOutOfRange);
    assert_ne!(HeightToPressureError::InvalidHeight, HeightToPressureError::HeightOutOfRange);
    assert_ne!(
        PotentialTemperatureError::InvalidPressure,
        PotentialTemperatureError::PressureOutOfRange
    );
    assert_ne!(PressureToHeightError::InvalidPressure, PressureToHeightError::PressureOutOfRange);
    assert_ne!(VirtualTemperatureError::InvalidDewPoint, VirtualTemperatureError::InvalidPressure);
    assert_ne!(VisibilityError::NonPositivePressure, VisibilityError::NonPositiveTemperature);
}
