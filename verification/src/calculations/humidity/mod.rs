pub mod actual_vapor_pressure;
pub mod dew_point;
pub mod mixing_ratio;
pub mod relative_humidity;
pub mod saturated_vapor_pressure;
pub mod wet_bulb_temperature;

pub use actual_vapor_pressure::{ActualVaporPressureError, actual_vapor_pressure_input_error};
pub use dew_point::{
    DewPointError, dew_point_from_temp_and_rh_error, dew_point_from_vapor_pressure_input_error,
};
pub use mixing_ratio::{MixingRatioError, actual_mixing_ratio_error, saturated_mixing_ratio_error};
pub use relative_humidity::{
    RelativeHumidityError, RelativeHumidityRoute, relative_humidity_from_mixing_ratio_error,
    relative_humidity_route,
};
pub use saturated_vapor_pressure::{
    SaturationVaporPressureError, saturation_vapor_pressure_input_error,
};
pub use wet_bulb_temperature::{
    WET_BULB_MAX_STEPS, WetBulbAction, WetBulbError, WetBulbSearch, wet_bulb_input_error,
    wet_bulb_step,
};
