//! Normalisation of daily weather-station readings into one canonical unit set.
//!
//! Values are carried unchanged through the library; every conversion is
//! described exactly, as a short formula over decimal constants and pi, and
//! callers evaluate that formula in the number type they use.
pub mod conversion;
pub mod date;
pub mod exact;
pub mod fields;
pub mod reading;
pub mod record;
pub mod station;
pub mod text;
pub mod units;
