//! Streaming gzip compression of a byte source, with progress tracking and
//! a statistics report.
//!
//! The entropy coding is done by `flate2`; everything around it is verified:
//! how the source is cut into chunks, what is handed to the encoder and what
//! comes back, how progress is counted, and how the statistics are computed
//! and rendered.

pub mod chunks;
pub mod compress;
pub mod encoder;
pub mod error;
pub mod job;
pub mod progress;
pub mod report;
pub mod rounding;
pub mod stats;
pub mod stream;
pub mod strength;
