//! A stochastic price/volume process on fixed-point integers.
//!
//! Prices are carried in micro-units (one millionth of a currency unit) and
//! fractional changes in parts per million, so the whole step rule — random
//! walk, mean reversion, news shocks, the price floor, and the volume model —
//! is exact integer arithmetic with a verified contract.

mod draws;
pub mod generator;
pub mod laws;
pub mod model;

pub use generator::PriceGenerator;
