use continuum::models::check_parameters;
use continuum::models::check_prediction_input;
use continuum::models::check_training_data;
use continuum::models::check_validation_data;
use continuum::models::fit_method;
use continuum::ApiError;
use continuum::ContinuousLearningConfig;
use continuum::FitMethod;
use continuum::ModelError;
use continuum::ModelKind;
use continuum::ModelStats;
use continuum::TrainingBuffer;

#[test]
fn test_library_exports() {
    let _buffer: TrainingBuffer<Vec<f32>, f32> = TrainingBuffer::new();
    let _config = ContinuousLearningConfig::default();
    let _stats = ModelStats::default();
}

#[test]
fn training_data_is_checked() {
    assert!(check_training_data(4, 4).is_ok());
    assert!(check_training_data(1, 1).is_ok());
    for (n, m) in [(0, 0), (0, 3), (3, 0)] {
        match check_training_data(n, m) {
            Err(ModelError::TrainingError(msg)) => assert_eq!(msg, "Empty training data"),
            other => panic!("unexpected: {:?}", other),
        }
    }
    match check_training_data(2, 3) {
        Err(ModelError::DimensionMismatch { expected, actual, context }) => {
            assert_eq!((expected, actual), (2, 3));
            assert_eq!(context, "Number of feature vectors doesn't match number of targets");
        }
        other => panic!("unexpected: {:?}", other),
    }
}

#[test]
fn validation_data_is_checked() {
    assert!(check_validation_data(1, 1).is_ok());
    for (n, m) in [(0, 0), (0, 3), (3, 0)] {
        match check_validation_data(n, m) {
            Err(ModelError::ValidationError(msg)) => assert_eq!(msg, "Empty validation data"),
            other => panic!("unexpected: {:?}", other),
        }
    }
    match check_validation_data(5, 4) {
        Err(ModelError::DimensionMismatch { expected, actual, context }) => {
            assert_eq!((expected, actual), (5, 4));
            assert_eq!(context, "Validation features vs targets");
        }
        other => panic!("unexpected: {:?}", other),
    }
}

#[test]
fn prediction_input_is_checked() {
    match check_prediction_input(false, 2, true, 1) {
        Err(ModelError::PredictionError(msg)) => assert_eq!(msg, "Model not trained"),
        other => panic!("unexpected: {:?}", other),
    }
    assert!(check_prediction_input(true, 2, true, 1).is_ok());
    assert!(check_prediction_input(true, 2, false, 2).is_ok());
    assert!(check_prediction_input(true, 1, true, 0).is_ok());
    assert!(check_prediction_input(true, 0, false, 0).is_ok());
    match check_prediction_input(true, 3, true, 3) {
        Err(ModelError::DimensionMismatch { expected, actual, context }) => {
            assert_eq!((expected, actual), (2, 3));
            assert_eq!(context, "Feature dimension doesn't match model weights");
        }
        other => panic!("unexpected: {:?}", other),
    }
    assert!(matches!(
        check_prediction_input(true, 3, false, 2),
        Err(ModelError::DimensionMismatch { expected: 3, actual: 2, .. })
    ));
    // A bias needs a weight.
    assert!(matches!(
        check_prediction_input(true, 0, true, 0),
        Err(ModelError::DimensionMismatch { expected: 0, actual: 0, .. })
    ));
}

#[test]
fn parameters_must_not_be_empty() {
    assert!(check_parameters(1).is_ok());
    match check_parameters(0) {
        Err(ModelError::InvalidParameter(msg)) => assert_eq!(msg, "Empty parameters"),
        other => panic!("unexpected: {:?}", other),
    }
}

#[test]
fn fit_method_by_shape() {
    assert_eq!(fit_method(4, 2), FitMethod::ClosedForm);
    assert_eq!(fit_method(2, 2), FitMethod::GradientDescent);
    assert_eq!(fit_method(1, 2), FitMethod::GradientDescent);
    assert_eq!(fit_method(1000, 999), FitMethod::ClosedForm);
    assert_eq!(fit_method(5000, 1000), FitMethod::GradientDescent);
    assert_eq!(fit_method(1, 0), FitMethod::ClosedForm);
    assert_eq!(fit_method(0, 0), FitMethod::GradientDescent);
}

#[test]
fn model_kinds_by_name() {
    assert_eq!(ModelKind::parse("linear").unwrap(), ModelKind::Linear);
    assert_eq!(ModelKind::parse("ridge").unwrap(), ModelKind::Ridge);
    for unknown in ["unknown", "", "Linear", "ridge "] {
        match ModelKind::parse(unknown) {
            Err(ApiError::InvalidInput(msg)) => {
                assert_eq!(msg, format!("Unknown model type: {}", unknown))
            }
            other => panic!("unexpected: {:?}", other),
        }
    }
}
