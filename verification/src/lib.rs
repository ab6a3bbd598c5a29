//! Adaptive gas-limit controller.
//!
//! The controller raises or lowers a shard's gas limit by one proportional
//! step per decision, from how long recent chunks took to apply and from how
//! much admitted work is still waiting. All quantities are exact integers:
//! durations are nanoseconds, load ratios are pairs of counts, and thresholds
//! are fractions, so every comparison is a comparison of integers.

pub mod ratio;
pub mod snapshot;
pub mod controller;
