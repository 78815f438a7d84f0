//! Values that cross the boundary to a request layer.

use crate::traits::model::ModelError;
use vstd::prelude::*;
use vstd::string::StringExecFns;

verus! {

/// Errors of the request layer.
#[derive(Debug)]
pub enum ApiError {
    /// An error of a model or of the component that serves it.
    ModelError(ModelError),
    /// A request that names something the layer does not know.
    InvalidInput(String),
    /// A request for something that does not exist.
    NotFound(String),
}

impl ApiError {
    /// Whether `line` is a rendering of this error for a reader.
    pub open spec fn rendered_as(&self, line: Seq<char>) -> bool {
        match self {
            ApiError::ModelError(e) => exists|inner: Seq<char>|
                e@.rendered_as(inner) && line == "Model error: "@ + inner,
            ApiError::InvalidInput(m) => line == "Invalid input: "@ + m@,
            ApiError::NotFound(m) => line == "Not found: "@ + m@,
        }
    }

    /// The error as a line of text for a reader.
    pub fn to_string(&self) -> (line: String)
        ensures
            self.rendered_as(line@),
    {
        match self {
            ApiError::ModelError(e) => {
                let inner = e.to_string();
                let mut line = String::from_str("Model error: ");
                line.append(inner.as_str());
                line
            },
            ApiError::InvalidInput(m) => {
                let mut line = String::from_str("Invalid input: ");
                line.append(m.as_str());
                line
            },
            ApiError::NotFound(m) => {
                let mut line = String::from_str("Not found: ");
                line.append(m.as_str());
                line
            },
        }
    }
}

impl From<ModelError> for ApiError {
    fn from(error: ModelError) -> (wrapped: ApiError) {
        ApiError::ModelError(error)
    }
}

impl vstd::std_specs::convert::FromSpecImpl<ModelError> for ApiError {
    open spec fn obeys_from_spec() -> bool {
        true
    }

    open spec fn from_spec(error: ModelError) -> ApiError {
        ApiError::ModelError(error)
    }
}

/// The kinds of model that a request can name.
#[derive(Debug, Clone, Copy, PartialEq, Eq, Structural)]
pub enum ModelKind {
    /// Least-squares regression, named `linear`.
    Linear,
    /// Least-squares regression with an L2 penalty, named `ridge`.
    Ridge,
}

/// The kind that a request names, if it names one.
pub open spec fn named_kind(model_type: Seq<char>) -> Option<ModelKind> {
    if model_type == "linear"@ {
        Some(ModelKind::Linear)
    } else if model_type == "ridge"@ {
        Some(ModelKind::Ridge)
    } else {
        None
    }
}

impl ModelKind {
    /// The kind named by `model_type`. Any other name is an invalid input.
    pub fn parse(model_type: &str) -> (kind: Result<ModelKind, ApiError>)
        ensures
            match named_kind(model_type@) {
                Some(named) => kind == Ok::<ModelKind, ApiError>(named),
                None => {
                    &&& kind matches Err(ApiError::InvalidInput(message))
                    &&& message@ == "Unknown model type: "@ + model_type@
                },
            },
    {
        let wanted = String::from_str(model_type);
        if wanted == String::from_str("linear") {
            Ok(ModelKind::Linear)
        } else if wanted == String::from_str("ridge") {
            Ok(ModelKind::Ridge)
        } else {
            let mut message = String::from_str("Unknown model type: ");
            message.append(model_type);
            Err(ApiError::InvalidInput(message))
        }
    }
}

/// What a registry reports of one model.
#[derive(Debug)]
pub struct ModelInfo {
    /// The name the model is registered under.
    pub name: String,
    /// The version of the serving model.
    pub version: usize,
    /// Whether a training round is in flight.
    pub is_training: bool,
    /// The model's statistics as one line of text.
    pub stats: String,
}

} // verus!
