//! Verified control kernel of an edge microgrid agent: rule-based power
//! dispatch, the autonomic safety shields that override it, the simulated
//! device backend, the forecast fallback, the event journal, the site
//! knowledge graph and fleet telemetry queueing.
//!
//! Physical quantities are held in integer fixed-point units (see `units`).
pub mod units;
pub mod text;
pub mod config;
pub mod clock;
pub mod devices;
pub mod dispatch;
pub mod autonomic;
pub mod journal;
pub mod knowledge;
pub mod ml_bridge;
pub mod sync;
