//! Core of a humidity-monitor firmware: a wrap-safe monotonic clock over a
//! downcounting hardware timer, independently usable busy-wait delay handles,
//! the sensor's bus-transaction driver with its fixed-point frame decoder,
//! the bar-graph threshold mapping, and decimal rounding and formatting.
//!
//! Fractional quantities (relative humidity in percent, temperature in
//! degrees) are carried as exact integer counts of micro-units, so every
//! computation on them is ordinary integer arithmetic.

pub mod dht;
pub mod leds;
pub mod shared_delay;
pub mod utils;
