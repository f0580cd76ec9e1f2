//! Upload ingestion core: request validation, per-file classification and
//! path derivation, filename sanitization, collision-avoidance via a
//! batch-wide timestamp, partial-failure accumulation, and result reporting.
//!
//! The surrounding HTTP server, the clock, and the filesystem moves live
//! outside this crate; they hand plain values in and take plain values back.

pub mod classify;
pub mod decimal;
pub mod decode;
pub mod persist;
pub mod report;
pub mod resolve;
pub mod types;
