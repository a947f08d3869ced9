use apple_classifier::apple::{Apple, AppleColor, AppleSize, Label};
use apple_classifier::report::{
    apple_line, decimal_text, detail_lines, error_line, predicate_line, separator_line,
    summary_line,
};

#[test]
fn an_apple_is_described_as_its_debug_text() {
    for color in [AppleColor::Red, AppleColor::Black] {
        for size in [AppleSize::Big, AppleSize::Small] {
            let apple = Apple { color, size };
            assert_eq!(apple_line(apple), format!("{:?}", apple));
        }
    }
    let apple = Apple { color: AppleColor::Red, size: AppleSize::Big };
    assert_eq!(apple_line(apple), "Apple { color: Red, size: Big }");
}

#[test]
fn attributes_and_labels_have_their_names() {
    assert_eq!(AppleColor::Red.name(), "Red");
    assert_eq!(AppleColor::Black.name(), "Black");
    assert_eq!(AppleSize::Big.name(), "Big");
    assert_eq!(AppleSize::Small.name(), "Small");
    assert_eq!(Label::Good.name(), "Good");
    assert_eq!(Label::Bad.name(), "Bad");
}

#[test]
fn prediction_and_error_are_indented_by_four() {
    assert_eq!(predicate_line("0.5498340"), "    predicate: 0.5498340");
    assert_eq!(error_line("-0.450166"), "    error: -0.450166");
    assert_eq!(predicate_line(""), "    predicate: ");
}

#[test]
fn the_separator_has_seventeen_dashes() {
    assert_eq!(separator_line(), "-----------------");
    assert_eq!(separator_line().len(), 17);
}

#[test]
fn a_sample_is_reported_in_five_lines() {
    let apple = Apple { color: AppleColor::Black, size: AppleSize::Small };
    let lines = detail_lines(apple, Label::Bad, "0.47502", "0.47502");
    assert_eq!(
        lines,
        vec![
            "Apple { color: Black, size: Small }",
            "Bad",
            "    predicate: 0.47502",
            "    error: 0.47502",
            "-----------------",
        ]
    );
    let apple = Apple { color: AppleColor::Red, size: AppleSize::Big };
    let lines = detail_lines(apple, Label::Good, "0.9", "-0.1");
    assert_eq!(lines[0], "Apple { color: Red, size: Big }");
    assert_eq!(lines[1], "Good");
}

#[test]
fn an_epoch_is_reported_in_one_line() {
    assert_eq!(summary_line(0, "0.6706"), "epoch 0 avg_loss 0.6706");
    assert_eq!(summary_line(9000, "0.0011"), "epoch 9000 avg_loss 0.0011");
    assert_eq!(summary_line(1000, "0.5"), format!("epoch {} avg_loss {}", 1000, 0.5));
}

#[test]
fn numbers_are_written_in_decimal() {
    assert_eq!(decimal_text(0), "0");
    assert_eq!(decimal_text(7), "7");
    assert_eq!(decimal_text(10), "10");
    assert_eq!(decimal_text(1000), "1000");
    assert_eq!(decimal_text(1234567890), "1234567890");
    for n in [0, 1, 9, 10, 11, 99, 100, 101, 999, 2000, 9999, 10000, 123456, usize::MAX] {
        assert_eq!(decimal_text(n), n.to_string());
    }
    for n in 0..3000 {
        assert_eq!(decimal_text(n), n.to_string());
    }
}
