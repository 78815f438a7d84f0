use continuum::ApiError;
use continuum::ModelError;
use continuum::ModelInfo;

#[test]
fn model_errors_as_text() {
    assert_eq!(
        ModelError::TrainingError("Empty training data".to_string()).to_string(),
        "Training error: Empty training data"
    );
    assert_eq!(
        ModelError::PredictionError("Model not trained".to_string()).to_string(),
        "Prediction error: Model not trained"
    );
    assert_eq!(
        ModelError::DimensionMismatch {
            expected: 3,
            actual: 12,
            context: "features vs targets length".to_string(),
        }
        .to_string(),
        "Dimension mismatch (features vs targets length): expected 3, got 12"
    );
    assert_eq!(
        ModelError::InvalidParameter("Model 'm' not found".to_string()).to_string(),
        "Invalid parameter: Model 'm' not found"
    );
    assert_eq!(
        ModelError::SerializationError("bad".to_string()).to_string(),
        "Serialization error: bad"
    );
    assert_eq!(
        ModelError::ValidationError("Empty validation data".to_string()).to_string(),
        "Validation error: Empty validation data"
    );
    assert_eq!(ModelError::Timeout("late".to_string()).to_string(), "Operation timed out: late");
}

#[test]
fn io_errors_are_wrapped_and_rendered() {
    let io = std::io::Error::new(std::io::ErrorKind::NotFound, "no such model");
    let error = ModelError::from(io);
    assert!(matches!(error, ModelError::IoError(_)));
    assert_eq!(error.to_string(), "I/O error: no such model");
}

#[test]
fn api_errors_as_text() {
    let inner = ModelError::InvalidParameter("Model 'x' already exists".to_string());
    let error = ApiError::from(inner);
    assert!(matches!(error, ApiError::ModelError(ModelError::InvalidParameter(_))));
    assert_eq!(error.to_string(), "Model error: Invalid parameter: Model 'x' already exists");
    assert_eq!(
        ApiError::InvalidInput("Unknown model type: tree".to_string()).to_string(),
        "Invalid input: Unknown model type: tree"
    );
    assert_eq!(ApiError::NotFound("x".to_string()).to_string(), "Not found: x");
}

#[test]
fn model_info_holds_plain_values() {
    let info = ModelInfo {
        name: "m".to_string(),
        version: 3,
        is_training: true,
        stats: "line".to_string(),
    };
    assert_eq!(info.name, "m");
    assert_eq!(info.version, 3);
    assert!(info.is_training);
    assert_eq!(info.stats, "line");
}
