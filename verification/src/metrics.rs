//! Metric kinds and their classification.

pub mod info;

use vstd::prelude::*;

verus! {

/// The classification of a metric kind in the exposition format.
#[derive(Clone, Copy, Debug, PartialEq, Eq, Structural)]
pub enum MetricType {
    Counter,
    Gauge,
    Histogram,
    Info,
    Unknown,
}

/// A metric kind with a fixed classification.
///
/// The tag belongs to the kind, not to a value of it: it can be read without
/// an instance.
pub trait TypedMetric {
    /// The classification of every metric of this kind.
    const TYPE: MetricType = MetricType::Unknown;
}

} // verus!
