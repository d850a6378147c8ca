pub mod temperature;

pub use temperature::TemperatureConversionError;
