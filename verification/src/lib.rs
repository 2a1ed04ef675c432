//! Elapsed-time fractions of the current minute, hour, day, month and year,
//! and the geometry of the progress rings that display them.

pub mod breakdown;
pub mod color;
pub mod config;
pub mod percent;
pub mod percentages;
pub mod ring;
