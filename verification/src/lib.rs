//! Metrics in the OpenMetrics text exposition format.
//!
//! The text of a sample is defined by spec functions, and the encoders are
//! verified to write exactly that text.
//!
//! [`metrics`] holds the metric kinds and their classification,
//! [`encoding`] the encoders through which a metric writes its sample.

pub mod encoding;
pub mod metrics;
