pub mod apparent_temperature;
pub mod density_altitude;
pub mod geometric_to_geopotential_height;
pub mod geopotential_to_geometric_height;
pub mod geopotential_to_height;
pub mod heat_index;
pub mod height_to_geopotential;
pub mod height_to_pressure;
pub mod horizontal_visibility;
pub mod potential_temperature;
pub mod pressure_to_height;
pub mod virtual_temperature;
pub mod wind_chill;
pub mod wind_components;
pub mod wind_direction;
pub mod wind_shear;
pub mod wind_speed;

pub use apparent_temperature::{ApparentRoute, ApparentTemperatureError, apparent_route};
pub use density_altitude::DensityAltitudeError;
pub use geometric_to_geopotential_height::{GeopotentialHeightError, geometric_height_input_error};
pub use geopotential_to_geometric_height::{GeopotentialError, geopotential_input_error};
pub use heat_index::{HeatIndexError, HeatIndexRoute, heat_index_route};
pub use height_to_geopotential::height_to_geopotential_input_error;
pub use height_to_pressure::{HeightToPressureError, height_to_pressure_input_error};
pub use horizontal_visibility::{VisibilityError, visibility_capped, visibility_input_error};
pub use potential_temperature::{PotentialTemperatureError, potential_temperature_input_error};
pub use pressure_to_height::{PressureToHeightError, pressure_to_height_input_error};
pub use virtual_temperature::VirtualTemperatureError;
pub use wind_chill::{WindChillError, wind_chill_input_error};
pub use wind_components::{WindComponentError, wind_components_input_error};
pub use wind_direction::WindDirectionError;
pub use wind_shear::{WindShearError, wind_shear_input_error};
pub use wind_speed::WindSpeedError;
