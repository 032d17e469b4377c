//! A transparent stream-rate meter library: exact byte passthrough,
//! time-windowed byte accumulation, and human-readable rate-line formatting
//! with power-of-two data-size units.

pub mod meter;
pub mod report;
pub mod units;
