//! Control logic for a garage door driven through a single toggle relay.
//!
//! The door's position is tracked in milliseconds of travel from fully closed:
//! `0` is closed and the configured full-traverse time is fully open.
//! All times are milliseconds on a monotonic clock.

pub mod door;
pub mod estimator;
pub mod planner;
pub mod pulse;
pub mod control;
pub mod simulation;
pub mod mock_gpio;
pub mod config;
pub mod mailbox;
