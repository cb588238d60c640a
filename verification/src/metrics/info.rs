//! The info metric.
//!
//! See [`Info`] for details.

use std::time::SystemTime;
use vstd::prelude::*;
use crate::encoding::text::{info_sample, written};
use crate::encoding::{EncodeLabelSet, EncodeMetric, MetricEncoder};
use crate::metrics::{MetricType, TypedMetric};

verus! {

/// An info metric: text about the process that does not change while it
/// runs, given as one label set. It has no number of its own and is shown
/// with the value 1.
///
/// The label set is given once, at construction, and only read afterwards.
///
/// ```
/// # use prometheus_client::metrics::info::Info;
/// let _info = Info::new(vec![("os", "GNU/linux")]);
/// ```
#[derive(Debug)]
pub struct Info<S>(pub(crate) S);

impl<S> Info<S> {
    /// The label set of this metric.
    pub closed spec fn label_set(&self) -> S {
        self.0
    }

    /// Creates the info metric with the label set `label_set`, kept as given.
    pub fn new(label_set: S) -> (info: Self)
        ensures
            info.label_set() == label_set,
    {
        Self(label_set)
    }
}

impl<S> TypedMetric for Info<S> {
    const TYPE: MetricType = MetricType::Info;
}

impl<S> EncodeMetric for Info<S> where S: Clone + std::hash::Hash + Eq + EncodeLabelSet {
    /// The sample of an info metric: its name with the suffix `_info`, its
    /// labels in braces and the value 1.
    open spec fn sample(&self, name: Seq<char>) -> Seq<char> {
        info_sample(name, self.label_set().labels())
    }

    /// An info metric has no time: its sample for a time is its sample.
    open spec fn sample_at(&self, name: Seq<char>, ts: SystemTime) -> Seq<char> {
        self.sample(name)
    }

    open spec fn kind(&self) -> MetricType {
        MetricType::Info
    }

    /// Writes the sample of this metric. The time is not used: an info
    /// metric is shown without one.
    ///
    /// The call fails where the label set refuses to be written, with the
    /// label set's error, and then leaves the writer as it was.
    fn encode_with_ts(&self, encoder: MetricEncoder<'_>, _ts: SystemTime) -> (r: Result<
        (),
        std::fmt::Error,
    >)
        ensures
            r == self.label_set().outcome(),
    {
        encoder.encode_info(&self.0)
    }

    /// Writes the sample of this metric.
    ///
    /// The call fails where the label set refuses to be written, with the
    /// label set's error, and then leaves the writer as it was.
    fn encode(&self, encoder: MetricEncoder<'_>) -> (r: Result<(), std::fmt::Error>)
        ensures
            r == self.label_set().outcome(),
    {
        encoder.encode_info(&self.0)
    }

    /// The classification of an info metric: `Info`, the tag of its kind,
    /// whatever the label set holds.
    fn metric_type(&self) -> (t: MetricType)
        ensures
            t == MetricType::Info,
            t == Self::TYPE,
    {
        Self::TYPE
    }
}

/// Every info metric is classified as `Info`, whatever its label set: by the
/// tag of its kind and by the tag that an instance reports.
pub proof fn lemma_info_is_typed_info<S>(info: Info<S>) where
    S: Clone + std::hash::Hash + Eq + EncodeLabelSet,

    ensures
        info.kind() == MetricType::Info,
        Info::<S>::TYPE == MetricType::Info,
{
}

/// Encoding can be repeated: two encodings of one info metric under one name
/// end alike and add the same text, whatever the two writers held before.
///
/// Each encoding is given as [`EncodeMetric::encode`] leaves it: by its
/// result, the text before it and the text after it.
pub proof fn lemma_encode_repeats<S>(
    info: Info<S>,
    name: Seq<char>,
    before1: Seq<char>,
    r1: Result<(), std::fmt::Error>,
    after1: Seq<char>,
    before2: Seq<char>,
    r2: Result<(), std::fmt::Error>,
    after2: Seq<char>,
) where
    S: Clone + std::hash::Hash + Eq + EncodeLabelSet,

    requires
        r1 == info.label_set().outcome(),
        written(before1, info.sample(name), r1, after1),
        r2 == info.label_set().outcome(),
        written(before2, info.sample(name), r2, after2),
    ensures
        r1 == r2,
        after1.skip(before1.len() as int) == after2.skip(before2.len() as int),
{
}

/// The time is ignored: from the same text, encoding for any time `ts` ends
/// as encoding with no time ends and leaves the same text.
///
/// The two encodings are given as [`EncodeMetric::encode`] and
/// [`EncodeMetric::encode_with_ts`] leave them.
pub proof fn lemma_timestamp_is_ignored<S>(
    info: Info<S>,
    name: Seq<char>,
    ts: SystemTime,
    before: Seq<char>,
    r_plain: Result<(), std::fmt::Error>,
    after_plain: Seq<char>,
    r_timed: Result<(), std::fmt::Error>,
    after_timed: Seq<char>,
) where
    S: Clone + std::hash::Hash + Eq + EncodeLabelSet,

    requires
        r_plain == info.label_set().outcome(),
        written(before, info.sample(name), r_plain, after_plain),
        r_timed == info.label_set().outcome(),
        written(before, info.sample_at(name, ts), r_timed, after_timed),
    ensures
        info.sample_at(name, ts) == info.sample(name),
        r_timed == r_plain,
        after_timed == after_plain,
{
}

/// An info metric without labels is still shown with its braces:
/// `<name>_info{} 1`.
pub proof fn lemma_sample_without_labels<S>(info: Info<S>, name: Seq<char>) where
    S: Clone + std::hash::Hash + Eq + EncodeLabelSet,

    requires
        info.label_set().labels().len() == 0,
    ensures
        info.sample(name) == name + "_info{} 1"@,
{
    reveal_strlit("_info{");
    reveal_strlit("} 1");
    reveal_strlit("_info{} 1");
    assert(info.sample(name) =~= name + "_info{} 1"@);
}

} // verus!
