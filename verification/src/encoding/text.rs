//! The text of a sample, as a function of what it shows.
//!
//! Everything here is ghost code: sequences of characters built from the
//! metric name and the label pairs. The encoders in [`crate::encoding`] are
//! verified to write exactly these sequences.

use vstd::prelude::*;

verus! {

/// A label in ghost code: the key, then the value.
pub type Label = (Seq<char>, Seq<char>);

/// One label as it stands between the braces: `key="value"`.
pub open spec fn label_text(key: Seq<char>, value: Seq<char>) -> Seq<char> {
    key + "=\""@ + value + "\""@
}

/// The label list `text` with one more label. A comma parts the label from
/// what is there already; the first label of a list gets none.
pub open spec fn with_label(text: Seq<char>, key: Seq<char>, value: Seq<char>) -> Seq<char> {
    if text.len() == 0 {
        label_text(key, value)
    } else {
        text + ","@ + label_text(key, value)
    }
}

/// The label list `text` with each of `labels` added in order.
pub open spec fn with_labels(text: Seq<char>, labels: Seq<Label>) -> Seq<char>
    decreases labels.len(),
{
    if labels.len() == 0 {
        text
    } else {
        with_label(with_labels(text, labels.drop_last()), labels.last().0, labels.last().1)
    }
}

/// Adding the first `n + 1` of `labels` is adding the first `n` of them and
/// then the label at `n`. This is the step of a loop that writes a label set
/// pair by pair.
pub proof fn lemma_with_labels_next(text: Seq<char>, labels: Seq<Label>, n: int)
    requires
        0 <= n < labels.len(),
    ensures
        with_labels(text, labels.take(n + 1)) == with_label(
            with_labels(text, labels.take(n)),
            labels[n].0,
            labels[n].1,
        ),
{
    assert(labels.take(n + 1).drop_last() == labels.take(n));
}

/// The labels as a list of its own: `k1="v1",k2="v2"`, empty for no labels.
pub open spec fn label_list(labels: Seq<Label>) -> Seq<char> {
    with_labels(Seq::empty(), labels)
}

/// The sample of an info metric whose label list is already text:
/// `<name>_info{<list>} 1`.
pub open spec fn info_text(name: Seq<char>, list: Seq<char>) -> Seq<char> {
    name + "_info{"@ + list + "} 1"@
}

/// The sample of the info metric `name` with the labels `labels`. An info
/// metric has no number of its own: the value after the labels is always 1.
pub open spec fn info_sample(name: Seq<char>, labels: Seq<Label>) -> Seq<char> {
    info_text(name, label_list(labels))
}

/// What a write that ended in `r` made of the text `before`: with `Ok` the
/// sample `text` stands behind it, with an error nothing was added.
pub open spec fn written(
    before: Seq<char>,
    text: Seq<char>,
    r: Result<(), std::fmt::Error>,
    after: Seq<char>,
) -> bool {
    match r {
        Ok(_) => after == before + text,
        Err(_) => after == before,
    }
}

} // verus!
