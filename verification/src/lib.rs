//! Health evaluation for local storage devices.
//!
//! The crate consumes per-device diagnostic telemetry (as plain values) and
//! produces a per-device severity classification plus a single aggregate
//! outcome code for automation. Device discovery, invocation of the external
//! diagnostic tool, JSON decoding and table rendering are collaborators that
//! live outside this crate; the engine here is threshold resolution,
//! classification and aggregation.

pub mod aggregate;
pub mod classify;
pub mod device;
pub mod engine;
pub mod fmt;
pub mod probe;
pub mod report;
pub mod temperature;
pub mod thresholds;
