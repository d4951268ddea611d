//! Host telemetry: log-line classification, log scanning, a versioned
//! SQLite store for samples and events, and window aggregation.
use vstd::prelude::*;

pub mod severity;
pub mod text;
pub mod decimal;
pub mod classifier;
pub mod scanner;
pub mod metrics;
pub mod report;
pub mod store;
pub mod tools;
pub mod config;

verus! {

/// Version string written into the store's schema marker.
pub const VERSION: &'static str = "0.1.0";

/// Application name.
pub const APP_NAME: &'static str = "systers";

} // verus!
