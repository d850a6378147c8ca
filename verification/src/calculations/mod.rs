pub mod general;
pub mod helpers;
pub mod humidity;
