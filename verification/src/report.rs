//! The text of the progress report.
//!
//! The trainer reports a sample in five lines and an epoch in one. The
//! wording and the order of the lines are fixed here; how a prediction, an
//! error or a loss is written as a number is left to the caller, who hands
//! the number over as text.

use crate::apple::{Apple, AppleColor, AppleSize, Label};
use vstd::prelude::*;

verus! {

/// The character of one decimal digit.
pub open spec fn digit(d: nat) -> char {
    if d == 0 {
        '0'
    } else if d == 1 {
        '1'
    } else if d == 2 {
        '2'
    } else if d == 3 {
        '3'
    } else if d == 4 {
        '4'
    } else if d == 5 {
        '5'
    } else if d == 6 {
        '6'
    } else if d == 7 {
        '7'
    } else if d == 8 {
        '8'
    } else {
        '9'
    }
}

/// A number in decimal notation, without leading zeros.
pub open spec fn decimal(n: nat) -> Seq<char>
    decreases n,
{
    if n < 10 {
        seq![digit(n)]
    } else {
        decimal(n / 10).push(digit(n % 10))
    }
}

/// Name of a colour, as it is written in a report.
pub open spec fn color_name(color: AppleColor) -> Seq<char> {
    match color {
        AppleColor::Red => "Red"@,
        AppleColor::Black => "Black"@,
    }
}

/// Name of a size, as it is written in a report.
pub open spec fn size_name(size: AppleSize) -> Seq<char> {
    match size {
        AppleSize::Big => "Big"@,
        AppleSize::Small => "Small"@,
    }
}

/// Name of a label, as it is written in a report.
pub open spec fn label_name(label: Label) -> Seq<char> {
    match label {
        Label::Good => "Good"@,
        Label::Bad => "Bad"@,
    }
}

/// The line that describes an apple by the names of its two attributes.
pub open spec fn apple_text(apple: Apple) -> Seq<char> {
    "Apple { color: "@ + color_name(apple.color) + ", size: "@ + size_name(apple.size) + " }"@
}

/// The line that gives the predicted probability.
pub open spec fn predicate_text(prediction: Seq<char>) -> Seq<char> {
    "    predicate: "@ + prediction
}

/// The line that gives the difference between prediction and label.
pub open spec fn error_text(error: Seq<char>) -> Seq<char> {
    "    error: "@ + error
}

/// The line that closes the report of a sample.
pub open spec fn separator_text() -> Seq<char> {
    "-----------------"@
}

/// The line that reports the average loss of an epoch.
pub open spec fn summary_text(epoch: nat, average_loss: Seq<char>) -> Seq<char> {
    "epoch "@ + decimal(epoch) + " avg_loss "@ + average_loss
}

/// The five lines that report a sample, in order: the apple, its label,
/// the prediction, the error, the separator.
pub open spec fn detail_text(
    apple: Apple,
    label: Label,
    prediction: Seq<char>,
    error: Seq<char>,
) -> Seq<Seq<char>> {
    seq![
        apple_text(apple),
        label_name(label),
        predicate_text(prediction),
        error_text(error),
        separator_text(),
    ]
}

impl AppleColor {
    /// Name of the colour.
    pub fn name(self) -> (name: &'static str)
        ensures
            name@ == color_name(self),
    {
        match self {
            AppleColor::Red => "Red",
            AppleColor::Black => "Black",
        }
    }
}

impl AppleSize {
    /// Name of the size.
    pub fn name(self) -> (name: &'static str)
        ensures
            name@ == size_name(self),
    {
        match self {
            AppleSize::Big => "Big",
            AppleSize::Small => "Small",
        }
    }
}

impl Label {
    /// Name of the label: `Good` or `Bad`.
    pub fn name(self) -> (name: &'static str)
        ensures
            name@ == label_name(self),
    {
        match self {
            Label::Good => "Good",
            Label::Bad => "Bad",
        }
    }
}

fn digit_text(d: usize) -> (text: &'static str)
    requires
        d < 10,
    ensures
        text@ == seq![digit(d as nat)],
{
    proof {
        reveal_strlit("0");
        reveal_strlit("1");
        reveal_strlit("2");
        reveal_strlit("3");
        reveal_strlit("4");
        reveal_strlit("5");
        reveal_strlit("6");
        reveal_strlit("7");
        reveal_strlit("8");
        reveal_strlit("9");
    }
    let text = if d == 0 {
        "0"
    } else if d == 1 {
        "1"
    } else if d == 2 {
        "2"
    } else if d == 3 {
        "3"
    } else if d == 4 {
        "4"
    } else if d == 5 {
        "5"
    } else if d == 6 {
        "6"
    } else if d == 7 {
        "7"
    } else if d == 8 {
        "8"
    } else {
        "9"
    };
    text
}

/// Writes a number in decimal notation.
pub fn decimal_text(n: usize) -> (text: String)
    ensures
        text@ == decimal(n as nat),
    decreases n,
{
    if n < 10 {
        String::from_str(digit_text(n))
    } else {
        let mut text = decimal_text(n / 10);
        text.append(digit_text(n % 10));
        text
    }
}

/// Writes the line that describes an apple.
pub fn apple_line(apple: Apple) -> (line: String)
    ensures
        line@ == apple_text(apple),
{
    let mut line = String::from_str("Apple { color: ");
    line.append(apple.color.name());
    line.append(", size: ");
    line.append(apple.size.name());
    line.append(" }");
    line
}

/// Writes the line that gives the predicted probability.
pub fn predicate_line(prediction: &str) -> (line: String)
    ensures
        line@ == predicate_text(prediction@),
{
    let mut line = String::from_str("    predicate: ");
    line.append(prediction);
    line
}

/// Writes the line that gives the difference between prediction and label.
pub fn error_line(error: &str) -> (line: String)
    ensures
        line@ == error_text(error@),
{
    let mut line = String::from_str("    error: ");
    line.append(error);
    line
}

/// Writes the line that closes the report of a sample.
pub fn separator_line() -> (line: &'static str)
    ensures
        line@ == separator_text(),
{
    "-----------------"
}

/// Writes the report of a sample, line by line.
pub fn detail_lines(
    apple: Apple,
    label: Label,
    prediction: &str,
    error: &str,
) -> (lines: Vec<String>)
    ensures
        lines.len() == 5,
        forall|i: int|
            0 <= i < 5 ==> (#[trigger] lines[i])@ == detail_text(
                apple,
                label,
                prediction@,
                error@,
            )[i],
{
    let mut lines: Vec<String> = Vec::new();
    lines.push(apple_line(apple));
    lines.push(String::from_str(label.name()));
    lines.push(predicate_line(prediction));
    lines.push(error_line(error));
    lines.push(String::from_str(separator_line()));
    lines
}

/// Writes the line that reports the average loss of an epoch.
pub fn summary_line(epoch: usize, average_loss: &str) -> (line: String)
    ensures
        line@ == summary_text(epoch as nat, average_loss@),
{
    let mut line = String::from_str("epoch ");
    let number = decimal_text(epoch);
    line.append(number.as_str());
    line.append(" avg_loss ");
    line.append(average_loss);
    line
}

} // verus!
