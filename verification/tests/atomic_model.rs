use continuum::AtomicModel;
use continuum::Examples;
use continuum::Model;
use continuum::ModelError;
use continuum::ModelErrorView;
use continuum::ModelStats;

/// A feature vector of single-precision numbers.
#[derive(Clone, Debug)]
struct FeatureVector {
    values: Vec<f32>,
}

impl FeatureVector {
    fn new(values: Vec<f32>) -> Self {
        FeatureVector { values }
    }

    fn dimension(&self) -> usize {
        self.values.len()
    }
}

/// Least-squares regression on a line or a plane, for the tests.
#[derive(Clone, Debug)]
struct LinearRegression {
    weights: Vec<f32>,
    with_bias: bool,
    learning_rate: f32,
    max_iterations: usize,
    trained: bool,
}

impl LinearRegression {
    fn new(with_bias: bool, learning_rate: f32, max_iterations: usize) -> Self {
        LinearRegression { weights: Vec::new(), with_bias, learning_rate, max_iterations, trained: false }
    }

    fn design_row(&self, feature: &FeatureVector) -> Vec<f64> {
        let mut row = Vec::new();
        if self.with_bias {
            row.push(1.0);
        }
        for v in &feature.values {
            row.push(*v as f64);
        }
        row
    }

    fn solve(mut a: Vec<Vec<f64>>, mut b: Vec<f64>) -> Option<Vec<f64>> {
        let n = b.len();
        for col in 0..n {
            let mut pivot = col;
            for row in col + 1..n {
                if a[row][col].abs() > a[pivot][col].abs() {
                    pivot = row;
                }
            }
            if a[pivot][col].abs() < 1e-12 {
                return None;
            }
            a.swap(col, pivot);
            b.swap(col, pivot);
            for row in col + 1..n {
                let factor = a[row][col] / a[col][col];
                for k in col..n {
                    a[row][k] -= factor * a[col][k];
                }
                b[row] -= factor * b[col];
            }
        }
        let mut x = vec![0.0; n];
        for row in (0..n).rev() {
            let mut sum = b[row];
            for k in row + 1..n {
                sum -= a[row][k] * x[k];
            }
            x[row] = sum / a[row][row];
        }
        Some(x)
    }
}

impl Model for LinearRegression {
    type Feature = FeatureVector;
    type Value = f32;

    fn predicts(&self, _feature: FeatureVector) -> Result<f32, ModelErrorView> {
        unreachable!()
    }

    fn validates(
        &self,
        _features: Examples<FeatureVector>,
        _targets: Examples<f32>,
    ) -> Result<f32, ModelErrorView> {
        unreachable!()
    }

    fn trains(
        &self,
        _features: Examples<FeatureVector>,
        _targets: Examples<f32>,
        _after: &Self,
        _outcome: Result<(), ModelErrorView>,
    ) -> bool {
        unreachable!()
    }

    fn train(&mut self, features: &[FeatureVector], targets: &[f32]) -> Result<(), ModelError> {
        if features.is_empty() || targets.is_empty() {
            return Err(ModelError::TrainingError("Empty training data".to_string()));
        }
        if features.len() != targets.len() {
            return Err(ModelError::DimensionMismatch {
                expected: features.len(),
                actual: targets.len(),
                context: "Number of feature vectors doesn't match number of targets".to_string(),
            });
        }
        let rows: Vec<Vec<f64>> = features.iter().map(|f| self.design_row(f)).collect();
        let cols = rows[0].len();
        if cols < 1000 && rows.len() > cols {
            let mut xtx = vec![vec![0.0; cols]; cols];
            let mut xty = vec![0.0; cols];
            for (row, target) in rows.iter().zip(targets.iter()) {
                for i in 0..cols {
                    xty[i] += row[i] * (*target as f64);
                    for j in 0..cols {
                        xtx[i][j] += row[i] * row[j];
                    }
                }
            }
            match LinearRegression::solve(xtx, xty) {
                Some(w) => {
                    self.weights = w.iter().map(|v| *v as f32).collect();
                    self.trained = true;
                    Ok(())
                }
                None => Err(ModelError::TrainingError("Failed to solve OLS: singular".to_string())),
            }
        } else {
            let n = rows.len() as f64;
            let mut w = vec![0.0f64; cols];
            for _ in 0..self.max_iterations {
                let mut gradient = vec![0.0f64; cols];
                for (row, target) in rows.iter().zip(targets.iter()) {
                    let predicted: f64 = row.iter().zip(w.iter()).map(|(a, b)| a * b).sum();
                    let error = (*target as f64) - predicted;
                    for i in 0..cols {
                        gradient[i] += row[i] * error * (-2.0 / n);
                    }
                }
                for i in 0..cols {
                    w[i] -= (self.learning_rate as f64) * gradient[i];
                }
            }
            self.weights = w.iter().map(|v| *v as f32).collect();
            self.trained = true;
            Ok(())
        }
    }

    fn predict(&self, feature: &FeatureVector) -> Result<f32, ModelError> {
        if !self.trained {
            return Err(ModelError::PredictionError("Model not trained".to_string()));
        }
        let offset = if self.with_bias { 1 } else { 0 };
        let expected = self.weights.len() - offset;
        if feature.dimension() != expected {
            return Err(ModelError::DimensionMismatch {
                expected,
                actual: feature.dimension(),
                context: "Feature dimension doesn't match model weights".to_string(),
            });
        }
        let mut prediction = if self.with_bias { self.weights[0] } else { 0.0 };
        for i in 0..feature.dimension() {
            prediction += feature.values[i] * self.weights[i + offset];
        }
        Ok(prediction)
    }

    fn export_parameters(&self) -> Result<Vec<f32>, ModelError> {
        Ok(self.weights.clone())
    }

    fn import_parameters(&mut self, parameters: Vec<f32>) -> Result<(), ModelError> {
        if parameters.is_empty() {
            return Err(ModelError::InvalidParameter("Empty parameters".to_string()));
        }
        self.weights = parameters;
        self.trained = true;
        Ok(())
    }

    fn validate(&self, features: &[FeatureVector], targets: &[f32]) -> Result<f32, ModelError> {
        if features.is_empty() || targets.is_empty() {
            return Err(ModelError::ValidationError("Empty validation data".to_string()));
        }
        if features.len() != targets.len() {
            return Err(ModelError::DimensionMismatch {
                expected: features.len(),
                actual: targets.len(),
                context: "Validation features vs targets".to_string(),
            });
        }
        let predictions = self.predict_batch(features)?;
        let mut sum_squared_error = 0.0;
        for i in 0..predictions.len() {
            let error = predictions[i] - targets[i];
            sum_squared_error += error * error;
        }
        Ok(sum_squared_error / predictions.len() as f32)
    }

    fn clone_model(&self) -> Self {
        self.clone()
    }
}

fn create_test_model() -> LinearRegression {
    LinearRegression::new(true, 0.01, 1000)
}

fn create_test_data() -> (Vec<FeatureVector>, Vec<f32>) {
    let features = vec![
        FeatureVector::new(vec![1.0]),
        FeatureVector::new(vec![2.0]),
        FeatureVector::new(vec![3.0]),
        FeatureVector::new(vec![4.0]),
    ];
    let targets = vec![3.0, 5.0, 7.0, 9.0]; // y = 2x + 1
    (features, targets)
}

#[test]
fn test_atomic_model_creation() {
    let model = create_test_model();
    let atomic_model = AtomicModel::new(model);

    assert_eq!(atomic_model.get_version(), 1);
    assert!(!atomic_model.is_training());
    assert!(atomic_model.is_in_sync());
}

#[test]
fn test_atomic_model_train_predict() {
    let model = create_test_model();
    let mut atomic_model = AtomicModel::new(model);

    let (features, targets) = create_test_data();

    atomic_model.train(&features, &targets).unwrap();
    atomic_model.swap_models().unwrap();

    let test_feature = FeatureVector::new(vec![5.0]);
    let prediction = atomic_model.predict(&test_feature).unwrap();

    assert!((prediction - 11.0).abs() < 1.0);

    let stats = atomic_model.get_stats();
    assert_eq!(stats.training_count, 1);
    assert_eq!(stats.prediction_count, 1);
    assert_eq!(stats.prediction_errors, 0);
    assert_eq!(stats.training_errors, 0);
}

#[test]
fn test_atomic_model_concurrent_training() {
    let model = create_test_model();
    let mut atomic_model = AtomicModel::new(model);

    let (features, targets) = create_test_data();

    assert!(!atomic_model.is_training(), "Training flag should initially be false");

    // A round is in flight from here on.
    atomic_model.begin_training(features.len(), targets.len()).unwrap();
    assert!(atomic_model.is_training());

    let result = atomic_model.train(&features, &targets);

    match result {
        Err(ModelError::TrainingError(msg)) => {
            assert!(msg.contains("Training already in progress"), "Expected concurrent training error");
        }
        Ok(_) => panic!("Expected training error when flag is set"),
        Err(e) => panic!("Unexpected error type: {:?}", e),
    }

    // The round ends.
    atomic_model
        .finish_training(Err(ModelError::Timeout("abandoned".to_string())), 0, 0)
        .unwrap_err();
    assert!(!atomic_model.is_training());

    let result = atomic_model.train(&features, &targets);
    assert!(result.is_ok(), "Training should succeed when flag is not set");
}

#[test]
fn test_atomic_model_swap() {
    let model = create_test_model();
    let mut atomic_model = AtomicModel::new(model);

    let (features, targets) = create_test_data();

    atomic_model.train(&features, &targets).unwrap();

    assert!(!atomic_model.is_in_sync());

    let new_version = atomic_model.swap_models().unwrap();

    assert_eq!(new_version, 2);
    assert_eq!(atomic_model.get_version(), 2);

    assert!(atomic_model.is_in_sync());
}

#[test]
fn test_atomic_model_compare() {
    let mut model = create_test_model();
    model.import_parameters(vec![0.0, 1.0]).unwrap();

    let mut atomic_model = AtomicModel::new(model);

    let (features, targets) = create_test_data();

    let val_features = vec![FeatureVector::new(vec![1.5])];
    let val_targets = vec![4.0]; // y = 2*1.5 + 1 = 4

    let initial_error = atomic_model.validate(&val_features, &val_targets).unwrap();

    atomic_model.train(&features, &targets).unwrap();

    let (current_error, training_error) =
        atomic_model.compare_models(&val_features, &val_targets).unwrap();

    assert!((current_error - initial_error).abs() < 1e-5);
    assert!(training_error < current_error);
}

#[test]
fn test_atomic_model_error_handling() {
    let model = create_test_model();
    let mut atomic_model = AtomicModel::new(model);

    let result = atomic_model.train(&[], &[]);
    assert!(matches!(result, Err(ModelError::TrainingError(_))));

    let features = vec![FeatureVector::new(vec![1.0])];
    let targets = vec![1.0, 2.0];
    let result = atomic_model.train(&features, &targets);
    assert!(matches!(result, Err(ModelError::DimensionMismatch { .. })));
}

#[test]
fn test_atomic_model_batch_predictions() {
    let model = create_test_model();
    let mut atomic_model = AtomicModel::new(model);

    let (features, targets) = create_test_data();

    atomic_model.train(&features, &targets).unwrap();
    atomic_model.swap_models().unwrap();

    let test_features = vec![
        FeatureVector::new(vec![1.0]),
        FeatureVector::new(vec![2.0]),
        FeatureVector::new(vec![3.0]),
    ];

    let predictions = atomic_model.predict_batch(&test_features).unwrap();

    assert!((predictions[0] - 3.0).abs() < 1.0);
    assert!((predictions[1] - 5.0).abs() < 1.0);
    assert!((predictions[2] - 7.0).abs() < 1.0);
}

#[test]
fn training_error_messages_are_exact() {
    let mut atomic_model = AtomicModel::new(create_test_model());
    match atomic_model.train(&[], &[1.0]) {
        Err(ModelError::TrainingError(msg)) => assert_eq!(msg, "Empty training data"),
        other => panic!("unexpected: {:?}", other),
    }
    let features = vec![FeatureVector::new(vec![1.0])];
    match atomic_model.train(&features, &[1.0, 2.0]) {
        Err(ModelError::DimensionMismatch { expected, actual, context }) => {
            assert_eq!(expected, 1);
            assert_eq!(actual, 2);
            assert_eq!(context, "features vs targets length");
        }
        other => panic!("unexpected: {:?}", other),
    }
    // Refusals count as nothing: no round was started.
    assert_eq!(atomic_model.get_stats().training_errors, 0);
    assert_eq!(atomic_model.get_stats().training_count, 0);
    assert!(atomic_model.is_in_sync());
}

#[test]
fn failed_round_counts_an_error_and_leaves_serving_copy() {
    // One example with a bias: the normal equations are singular for
    // two unknowns, but the model falls back to gradient descent, so use
    // a model that has been given parameters and data of the wrong width
    // for prediction instead.
    let mut model = create_test_model();
    model.import_parameters(vec![1.0, 2.0]).unwrap();
    let mut atomic_model = AtomicModel::new(model);

    let before = atomic_model.predict(&FeatureVector::new(vec![3.0])).unwrap();
    assert_eq!(before, 7.0);

    // Four equal features: two unknowns cannot be told apart.
    let features = vec![
        FeatureVector::new(vec![1.0]),
        FeatureVector::new(vec![1.0]),
        FeatureVector::new(vec![1.0]),
    ];
    let result = atomic_model.train(&features, &[1.0, 1.0, 1.0]);
    assert!(matches!(result, Err(ModelError::TrainingError(_))));

    assert_eq!(atomic_model.get_stats().training_errors, 1);
    assert_eq!(atomic_model.get_stats().training_count, 0);
    assert!(!atomic_model.is_training());
    assert!(!atomic_model.is_in_sync());
    assert_eq!(atomic_model.get_version(), 1);

    let after = atomic_model.predict(&FeatureVector::new(vec![3.0])).unwrap();
    assert_eq!(after, 7.0);
}

#[test]
fn swap_is_refused_while_training() {
    let mut atomic_model = AtomicModel::new(create_test_model());
    atomic_model.begin_training(2, 2).unwrap();

    match atomic_model.swap_models() {
        Err(ModelError::TrainingError(msg)) => {
            assert_eq!(msg, "Cannot swap while training in progress")
        }
        other => panic!("unexpected: {:?}", other),
    }
    assert_eq!(atomic_model.get_version(), 1);
    assert!(atomic_model.is_training());

    atomic_model.finish_training(Ok(()), 12, 34).unwrap();
    assert_eq!(atomic_model.swap_models().unwrap(), 2);
    assert_eq!(atomic_model.swap_models().unwrap(), 3);
    assert_eq!(atomic_model.get_version(), 3);
}

#[test]
fn second_claim_is_refused_and_changes_nothing() {
    let mut atomic_model = AtomicModel::new(create_test_model());
    assert!(atomic_model.begin_training(3, 3).is_ok());
    match atomic_model.begin_training(3, 3) {
        Err(ModelError::TrainingError(msg)) => assert_eq!(msg, "Training already in progress"),
        other => panic!("unexpected: {:?}", other),
    }
    assert!(atomic_model.is_training());
    assert!(!atomic_model.is_in_sync());
    assert_eq!(atomic_model.get_stats().training_errors, 0);
}

#[test]
fn finish_training_records_latency_and_time() {
    let mut atomic_model = AtomicModel::new(create_test_model());
    atomic_model.begin_training(1, 1).unwrap();
    atomic_model.finish_training(Ok(()), 250, 1_700_000_000).unwrap();
    let stats = atomic_model.get_stats();
    assert_eq!(stats.training_count, 1);
    assert_eq!(stats.latest_training_latency_us, 250);
    assert_eq!(stats.last_updated_at, 1_700_000_000);
    assert_eq!(stats.training_errors, 0);

    atomic_model.begin_training(1, 1).unwrap();
    let outcome = atomic_model.finish_training(
        Err(ModelError::TrainingError("no".to_string())),
        999,
        1_800_000_000,
    );
    assert!(matches!(outcome, Err(ModelError::TrainingError(_))));
    let stats = atomic_model.get_stats();
    assert_eq!(stats.training_count, 1);
    assert_eq!(stats.training_errors, 1);
    assert_eq!(stats.latest_training_latency_us, 250);
    assert_eq!(stats.last_updated_at, 1_700_000_000);
}

#[test]
fn record_prediction_counts_and_averages() {
    let mut atomic_model = AtomicModel::new(create_test_model());
    atomic_model.record_prediction(true, 4, 100);
    assert_eq!(atomic_model.get_stats().prediction_count, 4);
    assert_eq!(atomic_model.get_stats().latest_prediction_latency_us, 25);

    atomic_model.record_prediction(true, 0, 70);
    assert_eq!(atomic_model.get_stats().prediction_count, 4);
    assert_eq!(atomic_model.get_stats().latest_prediction_latency_us, 70);

    atomic_model.record_prediction(false, 9, 5);
    assert_eq!(atomic_model.get_stats().prediction_count, 4);
    assert_eq!(atomic_model.get_stats().prediction_errors, 1);
    assert_eq!(atomic_model.get_stats().latest_prediction_latency_us, 70);

    atomic_model.record_prediction(true, usize::MAX, 1);
    assert_eq!(atomic_model.get_stats().prediction_count, usize::MAX);
}

#[test]
fn prediction_errors_are_counted_and_handed_on() {
    let mut atomic_model = AtomicModel::new(create_test_model());
    match atomic_model.predict(&FeatureVector::new(vec![1.0])) {
        Err(ModelError::PredictionError(msg)) => assert_eq!(msg, "Model not trained"),
        other => panic!("unexpected: {:?}", other),
    }
    assert_eq!(atomic_model.get_stats().prediction_errors, 1);
    assert_eq!(atomic_model.get_stats().prediction_count, 0);

    let batch = vec![FeatureVector::new(vec![1.0]), FeatureVector::new(vec![2.0])];
    assert!(atomic_model.predict_batch(&batch).is_err());
    assert_eq!(atomic_model.get_stats().prediction_errors, 2);
    assert_eq!(atomic_model.get_stats().prediction_count, 0);
}

#[test]
fn batch_counts_every_feature() {
    let mut model = create_test_model();
    model.import_parameters(vec![1.0, 2.0]).unwrap();
    let mut atomic_model = AtomicModel::new(model);
    let batch = vec![
        FeatureVector::new(vec![1.0]),
        FeatureVector::new(vec![2.0]),
        FeatureVector::new(vec![3.0]),
    ];
    assert_eq!(atomic_model.predict_batch(&batch).unwrap(), vec![3.0, 5.0, 7.0]);
    assert_eq!(atomic_model.get_stats().prediction_count, 3);

    // One feature of the wrong width fails the whole batch.
    let mixed = vec![FeatureVector::new(vec![1.0]), FeatureVector::new(vec![1.0, 2.0])];
    assert!(matches!(
        atomic_model.predict_batch(&mixed),
        Err(ModelError::DimensionMismatch { expected: 1, actual: 2, .. })
    ));
    assert_eq!(atomic_model.get_stats().prediction_count, 3);
    assert_eq!(atomic_model.get_stats().prediction_errors, 1);
}

#[test]
fn predictions_during_a_round_are_those_of_the_serving_copy() {
    let mut model = create_test_model();
    model.import_parameters(vec![0.0, 1.0]).unwrap();
    let mut atomic_model = AtomicModel::new(model);
    let (features, targets) = create_test_data();
    let probe = FeatureVector::new(vec![5.0]);

    let before = atomic_model.predict(&probe).unwrap();
    atomic_model.begin_training(features.len(), targets.len()).unwrap();
    let during = atomic_model.predict(&probe).unwrap();

    let mut work = atomic_model.training_copy();
    let outcome = work.train(&features, &targets);
    atomic_model.install_training(work);
    let installed = atomic_model.predict(&probe).unwrap();
    atomic_model.finish_training(outcome, 10, 20).unwrap();
    let after = atomic_model.predict(&probe).unwrap();

    assert_eq!(before, 5.0);
    assert_eq!(during, before);
    assert_eq!(installed, before);
    assert_eq!(after, before);

    atomic_model.swap_models().unwrap();
    let promoted = atomic_model.predict(&probe).unwrap();
    assert!((promoted - 11.0).abs() < 0.01);
    let expected = atomic_model.training_copy().predict(&probe).unwrap();
    assert_eq!(promoted, expected);
}

#[test]
fn compare_models_checks_its_input() {
    let atomic_model = AtomicModel::new(create_test_model());
    match atomic_model.compare_models(&[], &[]) {
        Err(ModelError::ValidationError(msg)) => assert_eq!(msg, "Empty validation data"),
        other => panic!("unexpected: {:?}", other),
    }
    let features = vec![FeatureVector::new(vec![1.0]), FeatureVector::new(vec![2.0])];
    match atomic_model.compare_models(&features, &[1.0]) {
        Err(ModelError::DimensionMismatch { expected, actual, context }) => {
            assert_eq!(expected, 2);
            assert_eq!(actual, 1);
            assert_eq!(context, "Validation features vs targets");
        }
        other => panic!("unexpected: {:?}", other),
    }
    // An untrained serving copy cannot be validated.
    assert!(matches!(
        atomic_model.compare_models(&features, &[1.0, 2.0]),
        Err(ModelError::PredictionError(_))
    ));
}

#[test]
fn clone_copies_flags_and_statistics() {
    let mut atomic_model = AtomicModel::new(create_test_model());
    let (features, targets) = create_test_data();
    atomic_model.train(&features, &targets).unwrap();
    atomic_model.swap_models().unwrap();
    atomic_model.begin_training(1, 1).unwrap();

    let copy = atomic_model.clone();
    assert_eq!(copy.get_version(), 2);
    assert!(copy.is_training());
    assert!(!copy.is_in_sync());
    assert_eq!(copy.get_stats().training_count, 1);
    assert_eq!(copy.get_stats_formatted(), atomic_model.get_stats_formatted());
}

#[test]
fn container_with_given_statistics() {
    let stats = ModelStats::starting_at(std::time::SystemTime::UNIX_EPOCH, 77);
    let atomic_model = AtomicModel::with_stats(create_test_model(), stats);
    assert_eq!(atomic_model.get_stats().last_updated_at, 77);
    assert_eq!(atomic_model.get_version(), 1);
    assert!(atomic_model.get_current().export_parameters().unwrap().is_empty());
}

#[test]
fn counters_stop_at_the_largest_number() {
    let mut stats = ModelStats::starting_at(std::time::SystemTime::UNIX_EPOCH, 0);
    stats.version = usize::MAX;
    stats.training_count = usize::MAX;
    stats.training_errors = usize::MAX;
    stats.prediction_errors = usize::MAX;
    stats.prediction_count = usize::MAX - 1;
    let mut model = create_test_model();
    model.import_parameters(vec![0.0, 1.0]).unwrap();
    let mut atomic_model = AtomicModel::with_stats(model, stats);

    assert_eq!(atomic_model.swap_models().unwrap(), usize::MAX);
    assert_eq!(atomic_model.get_version(), usize::MAX);

    let (features, targets) = create_test_data();
    atomic_model.train(&features, &targets).unwrap();
    assert_eq!(atomic_model.get_stats().training_count, usize::MAX);

    atomic_model.begin_training(1, 1).unwrap();
    let _ = atomic_model.finish_training(Err(ModelError::Timeout("late".to_string())), 0, 0);
    assert_eq!(atomic_model.get_stats().training_errors, usize::MAX);

    let batch = vec![FeatureVector::new(vec![1.0]), FeatureVector::new(vec![2.0])];
    atomic_model.predict_batch(&batch).unwrap();
    assert_eq!(atomic_model.get_stats().prediction_count, usize::MAX);
    assert!(atomic_model.predict(&FeatureVector::new(vec![1.0, 2.0])).is_err());
    assert_eq!(atomic_model.get_stats().prediction_errors, usize::MAX);
}

#[test]
fn latencies_are_measured_on_the_monotonic_clock() {
    // A model that takes a while to answer.
    let mut model = create_test_model();
    model.import_parameters(vec![0.0, 1.0]).unwrap();
    let mut atomic_model = AtomicModel::new(model);
    let many: Vec<FeatureVector> = (0..20_000).map(|i| FeatureVector::new(vec![i as f32])).collect();
    let started = std::time::Instant::now();
    atomic_model.predict_batch(&many).unwrap();
    let whole = started.elapsed().as_micros() as usize;
    // The latency of one of twenty thousand answers is at most the time of all of them.
    assert!(atomic_model.get_stats().latest_prediction_latency_us <= whole);
    assert_eq!(atomic_model.get_stats().prediction_count, 20_000);
}
