//! A power-management policy engine. Given a snapshot of the system (power
//! source, load, temperature) and a configuration, it decides which
//! governor, turbo mode, energy hints, frequency limits, platform profile
//! and battery charge thresholds are to be active, and says which writes to
//! the hardware controls follow from that.
//!
//! - `config`: the configuration, as the engine uses it and as a file
//!   writes it.
//! - `system`: the snapshot of the system.
//! - `reading`: sensor readings and thresholds, and their order.
//! - `hysteresis`: the store of the last turbo decision per power source.
//! - `turbo`: the check of the turbo thresholds and the turbo decision.
//! - `engine`: the cycle that applies a profile, feature by feature.
//! - `error`: what can go wrong.
//! - `text`: numbers written out for messages.

pub mod config;
pub mod engine;
pub mod error;
pub mod hysteresis;
pub mod reading;
pub mod system;
pub mod text;
pub mod turbo;
