//! Physical quantities tagged with their unit: length, time, data size and data rate.
//!
//! This crate holds the unit algebra of those quantities: the closed set of units of each
//! dimension, the exact factor that takes each unit to its dimension's base unit, the factor
//! between any two units, the per-pair table that adds and subtracts times, the rule that turns
//! a data size over a time into a data rate, and the text that names each unit. Every factor is
//! an exact fraction of integers, and the laws of conversion are proved over exact fractions.

pub mod area;
pub mod data;
pub mod data_rate;
pub mod label;
pub mod length;
pub mod prelude;
pub mod scale;
pub mod time;
pub mod unit;
mod unit_traits;

pub use area::AreaUnit;
pub use data::DataUnit;
pub use data_rate::{DataRateUnit, RatePlan};
pub use length::LengthUnit;
pub use scale::{Fraction, Ratio, SumPlan};
pub use time::TimeUnit;
pub use unit_traits::UnitConversion;
