//! The categorical data model: apples, their attributes and their labels,
//! each with its numeric code.
//!
//! Every attribute has exactly two values and every value has its own code,
//! 1 or 0. The codes are what the trainer multiplies with its weights; the
//! caller turns them into whatever number type it computes in.

use vstd::prelude::*;

verus! {

/// Number of features of one apple.
pub const FEATURE_COUNT: usize = 2;

/// Colour of an apple. The domain is closed: there is no third colour.
#[derive(Debug, Clone, Copy, PartialEq, Eq, Structural)]
pub enum AppleColor {
    Red,
    Black,
}

/// Size of an apple. The domain is closed: there is no third size.
#[derive(Debug, Clone, Copy, PartialEq, Eq, Structural)]
pub enum AppleSize {
    Big,
    Small,
}

/// One sample: an apple described by its two categorical attributes.
#[derive(Debug, Clone, Copy, PartialEq, Eq, Structural)]
pub struct Apple {
    pub color: AppleColor,
    pub size: AppleSize,
}

/// Ground truth of a sample: a good apple or a bad one.
#[derive(Debug, Clone, Copy, PartialEq, Eq, Structural)]
pub enum Label {
    Good,
    Bad,
}

impl AppleColor {
    /// Numeric code of the colour: `Red` is 1, `Black` is 0.
    pub open spec fn code(self) -> u8 {
        match self {
            AppleColor::Red => 1,
            AppleColor::Black => 0,
        }
    }

    /// The colour that a code stands for, if it stands for one.
    pub open spec fn of_code(code: u8) -> Option<AppleColor> {
        if code == 1 {
            Some(AppleColor::Red)
        } else if code == 0 {
            Some(AppleColor::Black)
        } else {
            None
        }
    }

    /// Computes the numeric code of the colour.
    pub fn encode(self) -> (code: u8)
        ensures
            code == self.code(),
    {
        match self {
            AppleColor::Red => 1,
            AppleColor::Black => 0,
        }
    }
}

impl AppleSize {
    /// Numeric code of the size: `Big` is 1, `Small` is 0.
    pub open spec fn code(self) -> u8 {
        match self {
            AppleSize::Big => 1,
            AppleSize::Small => 0,
        }
    }

    /// The size that a code stands for, if it stands for one.
    pub open spec fn of_code(code: u8) -> Option<AppleSize> {
        if code == 1 {
            Some(AppleSize::Big)
        } else if code == 0 {
            Some(AppleSize::Small)
        } else {
            None
        }
    }

    /// Computes the numeric code of the size.
    pub fn encode(self) -> (code: u8)
        ensures
            code == self.code(),
    {
        match self {
            AppleSize::Big => 1,
            AppleSize::Small => 0,
        }
    }
}

impl Label {
    /// Numeric code of the label: `Good` is 1, `Bad` is 0.
    pub open spec fn code(self) -> u8 {
        match self {
            Label::Good => 1,
            Label::Bad => 0,
        }
    }

    /// The label that a code stands for, if it stands for one.
    pub open spec fn of_code(code: u8) -> Option<Label> {
        if code == 1 {
            Some(Label::Good)
        } else if code == 0 {
            Some(Label::Bad)
        } else {
            None
        }
    }

    /// Computes the numeric code of the label.
    pub fn encode(self) -> (code: u8)
        ensures
            code == self.code(),
    {
        match self {
            Label::Good => 1,
            Label::Bad => 0,
        }
    }
}

impl Apple {
    /// Feature vector of the apple: the colour code at index 0, the size
    /// code at index 1.
    pub open spec fn features(self) -> Seq<u8> {
        seq![self.color.code(), self.size.code()]
    }

    /// The apple that a feature vector stands for, if it stands for one.
    pub open spec fn of_features(features: Seq<u8>) -> Option<Apple> {
        if features.len() == FEATURE_COUNT {
            match (AppleColor::of_code(features[0]), AppleSize::of_code(features[1])) {
                (Some(color), Some(size)) => Some(Apple { color, size }),
                _ => None,
            }
        } else {
            None
        }
    }

    /// Computes the feature vector of the apple.
    pub fn encode(&self) -> (features: Vec<u8>)
        ensures
            features@ == self.features(),
            features.len() == FEATURE_COUNT,
    {
        let mut features: Vec<u8> = Vec::new();
        features.push(self.color.encode());
        features.push(self.size.encode());
        features
    }
}

/// Every colour is found again from its code.
pub proof fn lemma_color_code_round_trip(color: AppleColor)
    ensures
        AppleColor::of_code(color.code()) == Some(color),
{
}

/// The codes of the colours are exactly 0 and 1, and a code that stands
/// for a colour is the code of that colour.
pub proof fn lemma_color_of_code(code: u8)
    ensures
        AppleColor::of_code(code) is Some <==> code <= 1,
        AppleColor::of_code(code) matches Some(color) ==> color.code() == code,
{
}

/// Every size is found again from its code.
pub proof fn lemma_size_code_round_trip(size: AppleSize)
    ensures
        AppleSize::of_code(size.code()) == Some(size),
{
}

/// The codes of the sizes are exactly 0 and 1, and a code that stands for
/// a size is the code of that size.
pub proof fn lemma_size_of_code(code: u8)
    ensures
        AppleSize::of_code(code) is Some <==> code <= 1,
        AppleSize::of_code(code) matches Some(size) ==> size.code() == code,
{
}

/// Every label is found again from its code.
pub proof fn lemma_label_code_round_trip(label: Label)
    ensures
        Label::of_code(label.code()) == Some(label),
{
}

/// The codes of the labels are exactly 0 and 1, and a code that stands for
/// a label is the code of that label.
pub proof fn lemma_label_of_code(code: u8)
    ensures
        Label::of_code(code) is Some <==> code <= 1,
        Label::of_code(code) matches Some(label) ==> label.code() == code,
{
}

/// Every apple is found again from its feature vector, which has one entry
/// per feature.
pub proof fn lemma_features_round_trip(apple: Apple)
    ensures
        apple.features().len() == FEATURE_COUNT,
        Apple::of_features(apple.features()) == Some(apple),
{
}

/// The feature vectors of apples are exactly the vectors of two codes, each
/// 0 or 1, and a vector that stands for an apple is the feature vector of
/// that apple.
pub proof fn lemma_apple_of_features(features: Seq<u8>)
    ensures
        Apple::of_features(features) is Some <==> features.len() == FEATURE_COUNT
            && features[0] <= 1 && features[1] <= 1,
        Apple::of_features(features) matches Some(apple) ==> apple.features() == features,
{
}

/// Two apples with the same feature vector are the same apple.
pub proof fn lemma_features_injective(a: Apple, b: Apple)
    requires
        a.features() == b.features(),
    ensures
        a == b,
{
    lemma_features_round_trip(a);
    lemma_features_round_trip(b);
}

} // verus!
