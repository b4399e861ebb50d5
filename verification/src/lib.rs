//! Orchestration core for upgrading the operating system of one remote
//! network device over its HTTP management interface.
//!
//! The crate decides; its caller performs. Every function here works on
//! plain values: the caller sends the requests that [`device`] describes,
//! hands the replies back, sleeps when [`orchestrator`] says so, and keeps the
//! [`config::ConfigStore`] behind whatever lock its runtime offers.

pub mod config;
pub mod device;
pub mod error;
pub mod json;
pub mod orchestrator;
pub mod trace;
pub mod watcher;
