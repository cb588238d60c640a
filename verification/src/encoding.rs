//! Encoders: what a metric and a label set write through.
//!
//! A scrape hands each metric a [`MetricEncoder`] bound to the metric's name
//! and to the text written so far. The metric writes its sample through it;
//! a label set writes its pairs through a [`LabelSetEncoder`]. What ends up
//! in the text is defined in [`text`].

pub mod text;

use std::time::SystemTime;
use vstd::prelude::*;
use vstd::string::StringExecFns;
use crate::encoding::text::{
    info_sample, info_text, lemma_with_labels_next, with_label, with_labels, written, Label,
};
use crate::metrics::MetricType;

verus! {

/// `std::fmt::Error`, the one error of an encoding. The library carries a
/// value of it from where it arose to the caller and never looks inside.
#[verifier::external_type_specification]
#[verifier::external_body]
pub struct ExFmtError(std::fmt::Error);

/// `std::time::SystemTime`, the time a caller may attach to a sample. The
/// library carries it and never reads it.
#[verifier::external_type_specification]
#[verifier::external_body]
pub struct ExSystemTime(SystemTime);

/// Collects the labels of one sample as the text that stands between the
/// braces.
pub struct LabelSetEncoder {
    list: String,
}

impl View for LabelSetEncoder {
    type V = Seq<char>;

    /// The label list written so far.
    closed spec fn view(&self) -> Seq<char> {
        self.list@
    }
}

impl LabelSetEncoder {
    /// An encoder that holds no label yet.
    pub fn new() -> (encoder: Self)
        ensures
            encoder@ == Seq::<char>::empty(),
    {
        LabelSetEncoder { list: String::new() }
    }

    /// Adds the label `key="value"`, after a comma unless it is the first.
    pub fn encode_label(&mut self, key: &str, value: &str)
        ensures
            final(self)@ == with_label(old(self)@, key@, value@),
    {
        if !self.list.as_str().is_empty() {
            self.list.append(",");
        }
        self.list.append(key);
        self.list.append("=\"");
        self.list.append(value);
        self.list.append("\"");
    }

    /// The label list written so far.
    pub fn as_str(&self) -> (list: &str)
        ensures
            list@ == self@,
    {
        self.list.as_str()
    }
}

/// A label set: a fixed collection of key-value pairs that can write itself
/// into a [`LabelSetEncoder`].
///
/// A label set does not change once it exists, and writing it is a matter of
/// the set alone: which pairs are written, in which order, and whether the
/// writing succeeds are the same at every call.
///
/// A verified implementation states [`labels`](Self::labels) and
/// [`outcome`](Self::outcome) and is held to them. One that states neither
/// leaves both unspecified.
pub trait EncodeLabelSet {
    /// The pairs of this set, in the order in which [`encode`](Self::encode)
    /// writes them. The order is the implementor's choice.
    open spec fn labels(&self) -> Seq<Label> {
        arbitrary()
    }

    /// How [`encode`](Self::encode) ends for this set: `Ok`, or the error
    /// with which the set refuses to be written.
    open spec fn outcome(&self) -> Result<(), std::fmt::Error> {
        arbitrary()
    }

    /// Writes every pair of the set into `encoder`.
    ///
    /// When the call succeeds, `encoder` holds what it held before and then
    /// the pairs of [`labels`](Self::labels), each added as
    /// [`LabelSetEncoder::encode_label`] adds it.
    fn encode(&self, encoder: &mut LabelSetEncoder) -> (r: Result<(), std::fmt::Error>)
        ensures
            r == self.outcome(),
            r is Ok ==> final(encoder)@ == with_labels(old(encoder)@, self.labels()),
    ;
}

/// A list of borrowed pairs is a label set. Its pairs are written in the
/// order of the list, and writing them cannot fail.
impl<'a> EncodeLabelSet for Vec<(&'a str, &'a str)> {
    open spec fn labels(&self) -> Seq<Label> {
        Seq::new(self@.len(), |i: int| (self@[i].0@, self@[i].1@))
    }

    open spec fn outcome(&self) -> Result<(), std::fmt::Error> {
        Ok(())
    }

    fn encode(&self, encoder: &mut LabelSetEncoder) -> (r: Result<(), std::fmt::Error>) {
        let mut i: usize = 0;
        while i < self.len()
            invariant
                i <= self.len(),
                encoder@ == with_labels(old(encoder)@, self.labels().take(i as int)),
            decreases self.len() - i,
        {
            encoder.encode_label(self[i].0, self[i].1);
            proof {
                lemma_with_labels_next(old(encoder)@, self.labels(), i as int);
            }
            i += 1;
        }
        assert(self.labels().take(i as int) == self.labels());
        Ok(())
    }
}

/// A list of owned pairs is a label set. Its pairs are written in the order
/// of the list, and writing them cannot fail.
impl EncodeLabelSet for Vec<(String, String)> {
    open spec fn labels(&self) -> Seq<Label> {
        Seq::new(self@.len(), |i: int| (self@[i].0@, self@[i].1@))
    }

    open spec fn outcome(&self) -> Result<(), std::fmt::Error> {
        Ok(())
    }

    fn encode(&self, encoder: &mut LabelSetEncoder) -> (r: Result<(), std::fmt::Error>) {
        let mut i: usize = 0;
        while i < self.len()
            invariant
                i <= self.len(),
                encoder@ == with_labels(old(encoder)@, self.labels().take(i as int)),
            decreases self.len() - i,
        {
            encoder.encode_label(self[i].0.as_str(), self[i].1.as_str());
            proof {
                lemma_with_labels_next(old(encoder)@, self.labels(), i as int);
            }
            i += 1;
        }
        assert(self.labels().take(i as int) == self.labels());
        Ok(())
    }
}

/// The encoder of one metric in one scrape: the text written so far and the
/// name under which the metric is shown.
pub struct MetricEncoder<'a> {
    /// The text of the scrape. Samples are added at its end.
    pub writer: &'a mut String,
    /// The name of the metric that is being written.
    pub name: &'a str,
}

impl<'a> MetricEncoder<'a> {
    /// An encoder that adds to `writer` the samples of the metric `name`.
    pub fn new(writer: &'a mut String, name: &'a str) -> (encoder: Self)
        ensures
            encoder.name@ == name@,
            *encoder.writer == *old(writer),
            *final(encoder.writer) == *final(writer),
    {
        MetricEncoder { writer, name }
    }

    /// Writes the sample of an info metric with the labels of `label_set`:
    /// the name with the suffix `_info`, the labels in braces and the value 1.
    ///
    /// The label set writes its pairs itself and may fail. Its error is then
    /// returned, and nothing has reached the writer.
    pub fn encode_info<S: EncodeLabelSet>(self, label_set: &S) -> (r: Result<(), std::fmt::Error>)
        ensures
            r == label_set.outcome(),
            written(
                old(self.writer)@,
                info_sample(self.name@, label_set.labels()),
                r,
                final(self.writer)@,
            ),
    {
        let mut labels = LabelSetEncoder::new();
        let encoded = label_set.encode(&mut labels);
        self.write_info(labels.as_str(), encoded)
    }

    /// Writes the sample of an info metric whose labels a label set has
    /// turned into the text `list`, where `encoded` is how that went.
    ///
    /// With `Ok` the sample `<name>_info{<list>} 1` is added to the writer.
    /// With an error the writer is left as it was. Either way `encoded` is
    /// returned as it came.
    pub fn write_info(self, list: &str, encoded: Result<(), std::fmt::Error>) -> (r: Result<
        (),
        std::fmt::Error,
    >)
        ensures
            r == encoded,
            written(old(self.writer)@, info_text(self.name@, list@), encoded, final(self.writer)@),
    {
        if encoded.is_ok() {
            self.writer.append(self.name);
            self.writer.append("_info{");
            self.writer.append(list);
            self.writer.append("} 1");
            assert(self.writer@ =~= old(self.writer)@ + info_text(self.name@, list@));
        }
        encoded
    }
}

/// A metric that can write its sample into a [`MetricEncoder`].
///
/// Encoding reads the metric and changes only the writer. A call that fails
/// leaves the writer as it was, so that a scrape can leave the metric out.
///
/// A verified implementation states [`sample`](Self::sample),
/// [`sample_at`](Self::sample_at) and [`kind`](Self::kind) and is held to
/// them. One that states none of them leaves them unspecified.
pub trait EncodeMetric {
    /// The text that [`encode`](Self::encode) adds for this metric under the
    /// name `name`.
    open spec fn sample(&self, name: Seq<char>) -> Seq<char> {
        arbitrary()
    }

    /// The text that [`encode_with_ts`](Self::encode_with_ts) adds for this
    /// metric under the name `name` for the time `ts`.
    open spec fn sample_at(&self, name: Seq<char>, ts: SystemTime) -> Seq<char> {
        arbitrary()
    }

    /// The classification that [`metric_type`](Self::metric_type) returns.
    open spec fn kind(&self) -> MetricType {
        arbitrary()
    }

    /// Writes the sample of this metric, with no time attached.
    fn encode(&self, encoder: MetricEncoder<'_>) -> (r: Result<(), std::fmt::Error>)
        ensures
            written(
                old(encoder.writer)@,
                self.sample(encoder.name@),
                r,
                final(encoder.writer)@,
            ),
    ;

    /// Writes the sample of this metric as of the time `ts`.
    fn encode_with_ts(&self, encoder: MetricEncoder<'_>, ts: SystemTime) -> (r: Result<
        (),
        std::fmt::Error,
    >)
        ensures
            written(
                old(encoder.writer)@,
                self.sample_at(encoder.name@, ts),
                r,
                final(encoder.writer)@,
            ),
    ;

    /// The classification of this metric, for a caller that holds the metric
    /// without knowing its kind.
    fn metric_type(&self) -> (t: MetricType)
        ensures
            t == self.kind(),
    ;
}

} // verus!
