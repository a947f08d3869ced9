//! The training set: apples and their labels, side by side.
//!
//! The label at an index belongs to the apple at that index. A `Dataset`
//! cannot be built otherwise, so everything computed from one is aligned
//! with both.

use crate::apple::{Apple, AppleColor, AppleSize, Label, FEATURE_COUNT};
use vstd::prelude::*;

verus! {

/// An ordered collection of labelled apples.
#[derive(Debug)]
pub struct Dataset {
    apples: Vec<Apple>,
    labels: Vec<Label>,
}

impl Dataset {
    #[verifier::type_invariant]
    spec fn aligned(&self) -> bool {
        self.apples.len() == self.labels.len()
    }

    /// The apples, in dataset order.
    pub closed spec fn apples(&self) -> Seq<Apple> {
        self.apples@
    }

    /// The labels, in dataset order.
    pub closed spec fn labels(&self) -> Seq<Label> {
        self.labels@
    }

    /// Puts apples and labels together. There must be one label for each
    /// apple.
    pub fn new(apples: Vec<Apple>, labels: Vec<Label>) -> (dataset: Option<Dataset>)
        ensures
            dataset is Some <==> apples.len() == labels.len(),
            dataset matches Some(d) ==> d.apples() == apples@ && d.labels() == labels@,
    {
        if apples.len() == labels.len() {
            Some(Dataset { apples, labels })
        } else {
            None
        }
    }

    /// The two apples that the model is trained on: a big red one, which is
    /// good, and a small black one, which is bad.
    pub fn two_apples() -> (dataset: Dataset)
        ensures
            dataset.apples() == seq![
                Apple { color: AppleColor::Red, size: AppleSize::Big },
                Apple { color: AppleColor::Black, size: AppleSize::Small },
            ],
            dataset.labels() == seq![Label::Good, Label::Bad],
    {
        let mut apples: Vec<Apple> = Vec::new();
        apples.push(Apple { color: AppleColor::Red, size: AppleSize::Big });
        apples.push(Apple { color: AppleColor::Black, size: AppleSize::Small });
        let mut labels: Vec<Label> = Vec::new();
        labels.push(Label::Good);
        labels.push(Label::Bad);
        let dataset = Dataset { apples, labels };
        dataset
    }

    /// Number of samples.
    pub fn len(&self) -> (len: usize)
        ensures
            len == self.apples().len(),
            len == self.labels().len(),
    {
        proof {
            use_type_invariant(self);
        }
        self.apples.len()
    }

    /// The apple at `index`.
    pub fn apple(&self, index: usize) -> (apple: Apple)
        requires
            index < self.apples().len(),
        ensures
            apple == self.apples()[index as int],
    {
        self.apples[index]
    }

    /// The label of the apple at `index`.
    pub fn label(&self, index: usize) -> (label: Label)
        requires
            index < self.labels().len(),
        ensures
            label == self.labels()[index as int],
    {
        self.labels[index]
    }

    /// Encodes every apple: row `i` is the feature vector of apple `i`, and
    /// has one entry per feature.
    pub fn feature_rows(&self) -> (rows: Vec<Vec<u8>>)
        ensures
            rows.len() == self.apples().len(),
            forall|i: int|
                0 <= i < rows.len() ==> (#[trigger] rows[i])@ == self.apples()[i].features()
                    && rows[i].len() == FEATURE_COUNT,
    {
        let mut rows: Vec<Vec<u8>> = Vec::new();
        let mut i: usize = 0;
        while i < self.apples.len()
            invariant
                i <= self.apples.len(),
                rows.len() == i,
                forall|k: int|
                    0 <= k < i ==> (#[trigger] rows[k])@ == self.apples@[k].features()
                        && rows[k].len() == FEATURE_COUNT,
            decreases self.apples.len() - i,
        {
            rows.push(self.apples[i].encode());
            i += 1;
        }
        rows
    }

    /// Encodes every label: entry `i` is the code of label `i`.
    pub fn label_codes(&self) -> (codes: Vec<u8>)
        ensures
            codes.len() == self.labels().len(),
            forall|i: int| 0 <= i < codes.len() ==> #[trigger] codes[i] == self.labels()[i].code(),
    {
        let mut codes: Vec<u8> = Vec::new();
        let mut i: usize = 0;
        while i < self.labels.len()
            invariant
                i <= self.labels.len(),
                codes.len() == i,
                forall|k: int| 0 <= k < i ==> #[trigger] codes[k] == self.labels@[k].code(),
            decreases self.labels.len() - i,
        {
            codes.push(self.labels[i].encode());
            i += 1;
        }
        codes
    }
}

} // verus!
