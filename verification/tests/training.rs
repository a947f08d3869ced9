use apple_classifier::apple::FEATURE_COUNT;
use apple_classifier::dataset::Dataset;
use apple_classifier::report::{detail_lines, summary_line};
use apple_classifier::schedule::{Schedule, Step, EPOCHS};

fn sigmoid(x: f32) -> f32 {
    if x >= 0.0 {
        1.0 / (1.0 + (-x).exp())
    } else {
        let z = x.exp();
        z / (1.0 + z)
    }
}

fn bce(y_pred: f32, y: f32) -> f32 {
    -(y * y_pred.ln() + (1.0 - y) * (1.0 - y_pred).ln())
}

fn predict(weights: &[f32], bias: f32, feature: &[f32]) -> f32 {
    let mut sum = feature[0] * weights[0];
    for j in 1..weights.len() {
        sum += feature[j] * weights[j];
    }
    sigmoid(sum + bias)
}

struct Outcome {
    weights: Vec<f32>,
    bias: f32,
    average_losses: Vec<f32>,
    lines: Vec<String>,
}

fn train() -> Outcome {
    let dataset = Dataset::two_apples();
    let features: Vec<Vec<f32>> = dataset
        .feature_rows()
        .iter()
        .map(|row| row.iter().map(|&code| f32::from(code)).collect())
        .collect();
    let labels: Vec<f32> = dataset.label_codes().iter().map(|&code| f32::from(code)).collect();
    let mut weights = vec![0.1f32; FEATURE_COUNT];
    let mut bias = 0.0f32;
    let learning_rate = 0.1f32;
    let mut epoch_loss = 0.0f32;
    let mut average_losses = Vec::new();
    let mut lines = Vec::new();
    let mut schedule = Schedule::new(EPOCHS, dataset.len());
    while let Some(step) = schedule.next_step() {
        match step {
            Step::BeginEpoch { .. } => epoch_loss = 0.0,
            Step::Sample { index, detail, .. } => {
                let feature = &features[index];
                let y_pred = predict(&weights, bias, feature);
                epoch_loss += bce(y_pred, labels[index]);
                let error = y_pred - labels[index];
                if detail {
                    lines.extend(detail_lines(
                        dataset.apple(index),
                        dataset.label(index),
                        &y_pred.to_string(),
                        &error.to_string(),
                    ));
                }
                bias -= learning_rate * error;
                for j in 0..weights.len() {
                    weights[j] = weights[j] - learning_rate * error * feature[j];
                }
            }
            Step::EndEpoch { epoch, summary } => {
                let average = epoch_loss / dataset.len() as f32;
                average_losses.push(average);
                if summary {
                    lines.push(summary_line(epoch, &average.to_string()));
                }
            }
        }
    }
    Outcome { weights, bias, average_losses, lines }
}

#[test]
fn training_separates_the_two_apples() {
    let outcome = train();
    let first = outcome.average_losses[0];
    let last = outcome.average_losses[EPOCHS - 1];
    assert_eq!(outcome.average_losses.len(), EPOCHS);
    assert!(last < first);
    assert!(last < 0.01);
    assert!(predict(&outcome.weights, outcome.bias, &[1.0, 1.0]) > 0.9);
    assert!(predict(&outcome.weights, outcome.bias, &[0.0, 0.0]) < 0.1);
}

#[test]
fn training_prints_sixty_lines() {
    let outcome = train();
    assert_eq!(outcome.lines.len(), 60);
    assert_eq!(outcome.lines[0], "Apple { color: Red, size: Big }");
    assert_eq!(outcome.lines[1], "Good");
    assert!(outcome.lines[2].starts_with("    predicate: 0.5"));
    assert!(outcome.lines[3].starts_with("    error: -0.4"));
    assert_eq!(outcome.lines[4], "-----------------");
    assert_eq!(outcome.lines[5], "Apple { color: Black, size: Small }");
    assert_eq!(outcome.lines[6], "Bad");
    assert_eq!(outcome.lines[9], "-----------------");
    assert!(outcome.lines[10].starts_with("epoch 0 avg_loss 0."));
    assert!(outcome.lines[11].starts_with("epoch 1000 avg_loss 0."));
    assert!(outcome.lines[59].starts_with("epoch 9000 avg_loss 0."));
    let summaries = outcome.lines.iter().filter(|line| line.starts_with("epoch ")).count();
    let separators = outcome.lines.iter().filter(|line| *line == "-----------------").count();
    assert_eq!(summaries, 10);
    assert_eq!(separators, 10);
}

#[test]
fn training_twice_gives_the_same_model() {
    let a = train();
    let b = train();
    assert_eq!(a.weights, b.weights);
    assert_eq!(a.bias, b.bias);
    assert_eq!(a.lines, b.lines);
}
