//! A simulator of the rewards and penalties that proof-of-stake validators
//! accrue, epoch by epoch, under configurable probabilities of being online
//! and honest.
//!
//! The crate holds the epoch-processing engine: the reward calculus of one
//! validator, the election of block proposers, the balance update with
//! hysteresis, and the aggregation of the outcome into report rows.

pub mod process_epoch;
pub mod simulator;
pub mod types;
