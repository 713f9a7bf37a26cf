//! Interpreters for the sixth game of the series.

pub mod scalar;
pub mod interpolator;
pub mod format;
pub mod sprite;
pub mod catalog;
pub mod anm0;
pub mod enemy;
