//! Meteorological calculations: the error vocabulary of every calculation,
//! and the verified rules by which one calculation's failure becomes the
//! failure of another that builds on it.

pub mod calculations;
