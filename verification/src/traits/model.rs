//! The error type shared by every operation, and the `Model` capability.

use crate::text::to_decimal;
use vstd::prelude::*;
use vstd::string::StringExecFns;

verus! {

/// `std::io::Error`, an error of the operating system. Opaque.
#[verifier::external_type_specification]
#[verifier::external_body]
pub struct ExIoError(std::io::Error);

/// Errors of models and of the components that serve them.
#[derive(Debug)]
pub enum ModelError {
    /// Bad or empty training data, or a training round already in flight.
    TrainingError(String),
    /// The model cannot answer (it has not been trained, for instance).
    PredictionError(String),
    /// Two lengths or widths that must agree do not.
    DimensionMismatch { expected: usize, actual: usize, context: String },
    /// An unknown model name, a duplicate registration, a bad parameter.
    InvalidParameter(String),
    /// An error of the operating system while a model was stored or loaded.
    IoError(std::io::Error),
    /// A stored model could not be encoded or decoded.
    SerializationError(String),
    /// Empty or mismatched validation data.
    ValidationError(String),
    /// An operation ran out of time.
    Timeout(String),
}

/// A `ModelError` with its messages as sequences of characters.
pub ghost enum ModelErrorView {
    TrainingError(Seq<char>),
    PredictionError(Seq<char>),
    DimensionMismatch { expected: nat, actual: nat, context: Seq<char> },
    InvalidParameter(Seq<char>),
    IoError(std::io::Error),
    SerializationError(Seq<char>),
    ValidationError(Seq<char>),
    Timeout(Seq<char>),
}

impl View for ModelError {
    type V = ModelErrorView;

    open spec fn view(&self) -> ModelErrorView {
        match self {
            ModelError::TrainingError(m) => ModelErrorView::TrainingError(m@),
            ModelError::PredictionError(m) => ModelErrorView::PredictionError(m@),
            ModelError::DimensionMismatch { expected, actual, context } => {
                ModelErrorView::DimensionMismatch {
                    expected: *expected as nat,
                    actual: *actual as nat,
                    context: context@,
                }
            },
            ModelError::InvalidParameter(m) => ModelErrorView::InvalidParameter(m@),
            ModelError::IoError(e) => ModelErrorView::IoError(*e),
            ModelError::SerializationError(m) => ModelErrorView::SerializationError(m@),
            ModelError::ValidationError(m) => ModelErrorView::ValidationError(m@),
            ModelError::Timeout(m) => ModelErrorView::Timeout(m@),
        }
    }
}

impl ModelErrorView {
    /// Whether `line` is a rendering of this error for a reader. The text
    /// of an operating-system error is that system's own, so only the prefix
    /// of such a line is fixed.
    pub open spec fn rendered_as(self, line: Seq<char>) -> bool {
        match self {
            ModelErrorView::TrainingError(m) => line == "Training error: "@ + m,
            ModelErrorView::PredictionError(m) => line == "Prediction error: "@ + m,
            ModelErrorView::DimensionMismatch { expected, actual, context } => line
                == "Dimension mismatch ("@ + context + "): expected "@ + crate::text::decimal(
                expected,
            ) + ", got "@ + crate::text::decimal(actual),
            ModelErrorView::InvalidParameter(m) => line == "Invalid parameter: "@ + m,
            ModelErrorView::IoError(_) => exists|detail: Seq<char>|
                line == "I/O error: "@ + detail,
            ModelErrorView::SerializationError(m) => line == "Serialization error: "@ + m,
            ModelErrorView::ValidationError(m) => line == "Validation error: "@ + m,
            ModelErrorView::Timeout(m) => line == "Operation timed out: "@ + m,
        }
    }
}

/// `Display` of `std::io::Error`: the operating system's description of the
/// error. Nothing is claimed of the text.
#[verifier::external_body]
fn io_error_text(error: &std::io::Error) -> (text: String) {
    format!("{}", error)
}

fn prefixed(prefix: &str, message: &String) -> (line: String)
    ensures
        line@ == prefix@ + message@,
{
    let mut line = String::from_str(prefix);
    line.append(message.as_str());
    line
}

impl ModelError {
    /// The error as a line of text for a reader.
    pub fn to_string(&self) -> (line: String)
        ensures
            self@.rendered_as(line@),
    {
        match self {
            ModelError::TrainingError(m) => prefixed("Training error: ", m),
            ModelError::PredictionError(m) => prefixed("Prediction error: ", m),
            ModelError::DimensionMismatch { expected, actual, context } => {
                let mut line = String::from_str("Dimension mismatch (");
                line.append(context.as_str());
                line.append("): expected ");
                line.append(to_decimal(*expected).as_str());
                line.append(", got ");
                line.append(to_decimal(*actual).as_str());
                line
            },
            ModelError::InvalidParameter(m) => prefixed("Invalid parameter: ", m),
            ModelError::IoError(e) => {
                let detail = io_error_text(e);
                let line = prefixed("I/O error: ", &detail);
                assert(line@ == "I/O error: "@ + detail@);
                line
            },
            ModelError::SerializationError(m) => prefixed("Serialization error: ", m),
            ModelError::ValidationError(m) => prefixed("Validation error: ", m),
            ModelError::Timeout(m) => prefixed("Operation timed out: ", m),
        }
    }
}

impl From<std::io::Error> for ModelError {
    fn from(error: std::io::Error) -> (wrapped: ModelError) {
        ModelError::IoError(error)
    }
}

impl vstd::std_specs::convert::FromSpecImpl<std::io::Error> for ModelError {
    open spec fn obeys_from_spec() -> bool {
        true
    }

    open spec fn from_spec(error: std::io::Error) -> ModelError {
        ModelError::IoError(error)
    }
}

/// The examples of a training or validation set, in order.
pub type Examples<T> = Seq<T>;

/// A result with its error, if it has one, taken by its view.
pub open spec fn result_view<T>(result: Result<T, ModelError>) -> Result<T, ModelErrorView> {
    match result {
        Ok(value) => Ok(value),
        Err(error) => Err(error@),
    }
}

/// Whether `got` is what answering `features` one by one, in order, comes
/// to: every answer where each feature has one, else the error of the first
/// feature that has none.
pub open spec fn answered_in_order<F, V>(
    answer: spec_fn(F) -> Result<V, ModelErrorView>,
    features: Seq<F>,
    got: Result<Vec<V>, ModelError>,
) -> bool {
    match got {
        Ok(values) => {
            &&& values@.len() == features.len()
            &&& forall|i: int|
                0 <= i < features.len() ==> #[trigger] answer(features[i]) == Ok::<
                    V,
                    ModelErrorView,
                >(values@[i])
        },
        Err(e) => exists|i: int|
            {
                &&& 0 <= i < features.len()
                &&& #[trigger] answer(features[i]) == Err::<V, ModelErrorView>(e@)
                &&& forall|j: int| 0 <= j < i ==> (#[trigger] answer(features[j])) is Ok
            },
    }
}

/// Whether two models give the same answers: the same prediction for every
/// feature and the same error metric for every validation set.
pub open spec fn same_answers<M: Model>(a: &M, b: &M) -> bool {
    &&& forall|feature: M::Feature| #[trigger] a.predicts(feature) == b.predicts(feature)
    &&& forall|features: Seq<M::Feature>, targets: Seq<M::Value>| #[trigger]
        a.validates(features, targets) == b.validates(features, targets)
}

/// Whether `got` is what asking `model` about `features` one by one, in
/// order, comes to: every answer where each feature has one, else the error
/// of the first feature that has none.
pub open spec fn batch_answers<M: Model>(
    model: &M,
    features: Seq<M::Feature>,
    got: Result<Vec<M::Value>, ModelError>,
) -> bool {
    match got {
        Ok(values) => {
            &&& values@.len() == features.len()
            &&& forall|i: int|
                0 <= i < features.len() ==> #[trigger] model.predicts(features[i]) == Ok::<
                    M::Value,
                    ModelErrorView,
                >(values@[i])
        },
        Err(e) => exists|i: int|
            {
                &&& 0 <= i < features.len()
                &&& #[trigger] model.predicts(features[i]) == Err::<M::Value, ModelErrorView>(e@)
                &&& forall|j: int| 0 <= j < i ==> (#[trigger] model.predicts(features[j])) is Ok
            },
    }
}

/// `answered_in_order` with a model's `predicts` for the answers is
/// `batch_answers` of that model.
pub proof fn lemma_batch_answers<M: Model>(
    model: &M,
    features: Seq<M::Feature>,
    got: Result<Vec<M::Value>, ModelError>,
)
    ensures
        answered_in_order(|f: M::Feature| model.predicts(f), features, got) == batch_answers(
            model,
            features,
            got,
        ),
{
    let answer = |f: M::Feature| model.predicts(f);
    if answered_in_order(answer, features, got) {
        match got {
            Ok(values) => {
                assert forall|i: int| 0 <= i < features.len() implies #[trigger] model.predicts(
                    features[i],
                ) == Ok::<M::Value, ModelErrorView>(values@[i]) by {
                    assert(answer(features[i]) == Ok::<M::Value, ModelErrorView>(values@[i]));
                }
            },
            Err(e) => {
                let i = choose|i: int|
                    {
                        &&& 0 <= i < features.len()
                        &&& #[trigger] answer(features[i]) == Err::<M::Value, ModelErrorView>(e@)
                        &&& forall|j: int| 0 <= j < i ==> (#[trigger] answer(features[j])) is Ok
                    };
                assert(model.predicts(features[i]) == Err::<M::Value, ModelErrorView>(e@));
                assert forall|j: int| 0 <= j < i implies (#[trigger] model.predicts(
                    features[j],
                )) is Ok by {
                    assert(answer(features[j]) is Ok);
                }
            },
        }
    }
    if batch_answers(model, features, got) {
        match got {
            Ok(values) => {
                assert forall|i: int| 0 <= i < features.len() implies #[trigger] answer(
                    features[i],
                ) == Ok::<M::Value, ModelErrorView>(values@[i]) by {
                    assert(model.predicts(features[i]) == Ok::<M::Value, ModelErrorView>(
                        values@[i],
                    ));
                }
            },
            Err(e) => {
                let i = choose|i: int|
                    {
                        &&& 0 <= i < features.len()
                        &&& #[trigger] model.predicts(features[i]) == Err::<
                            M::Value,
                            ModelErrorView,
                        >(e@)
                        &&& forall|j: int|
                            0 <= j < i ==> (#[trigger] model.predicts(features[j])) is Ok
                    };
                assert(answer(features[i]) == Err::<M::Value, ModelErrorView>(e@));
                assert forall|j: int| 0 <= j < i implies (#[trigger] answer(features[j])) is Ok by {
                    assert(model.predicts(features[j]) is Ok);
                }
            },
        }
    }
}

/// A model that can be trained, asked for predictions and duplicated.
///
/// The serving core never looks inside a model. It relies on three things,
/// which every implementation promises: a prediction and a validation metric
/// depend on the model and the arguments alone (`predicts` and `validates`
/// name them), training leaves a model and an outcome that `trains` accepts,
/// and a duplicate answers as the model it was made from.
///
/// `predicts`, `validates` and `trains` exist for contracts only and are
/// never run: an implementation in unverified code gives each a body that
/// does not return.
pub trait Model: Sized {
    /// What a prediction is asked about.
    type Feature;

    /// Targets, predictions, error metrics and parameters.
    type Value;

    /// The result of `predict` on this model and `feature`.
    spec fn predicts(&self, feature: Self::Feature) -> Result<Self::Value, ModelErrorView>;

    /// The result of `validate` on this model and a validation set.
    spec fn validates(
        &self,
        features: Examples<Self::Feature>,
        targets: Examples<Self::Value>,
    ) -> Result<Self::Value, ModelErrorView>;

    /// Whether training this model on the given examples may leave `after`
    /// and return `outcome`.
    spec fn trains(
        &self,
        features: Examples<Self::Feature>,
        targets: Examples<Self::Value>,
        after: &Self,
        outcome: Result<(), ModelErrorView>,
    ) -> bool;

    /// Fits the model to a batch of examples.
    fn train(&mut self, features: &[Self::Feature], targets: &[Self::Value]) -> (outcome: Result<
        (),
        ModelError,
    >)
        ensures
            old(self).trains(features@, targets@, final(self), result_view(outcome)),
    ;

    /// Predicts the value for one feature.
    fn predict(&self, feature: &Self::Feature) -> (answer: Result<Self::Value, ModelError>)
        ensures
            result_view(answer) == self.predicts(*feature),
    ;

    /// Predicts the value for each feature in order, and stops at the first
    /// one that the model cannot answer.
    fn predict_batch(&self, features: &[Self::Feature]) -> (answers: Result<
        Vec<Self::Value>,
        ModelError,
    >)
        ensures
            answered_in_order(|f: Self::Feature| self.predicts(f), features@, answers),
    {
        let mut answers: Vec<Self::Value> = Vec::with_capacity(features.len());
        let mut i: usize = 0;
        while i < features.len()
            invariant
                i <= features.len(),
                answers@.len() == i,
                forall|k: int|
                    0 <= k < i ==> #[trigger] self.predicts(features@[k]) == Ok::<
                        Self::Value,
                        ModelErrorView,
                    >(answers@[k]),
            decreases features.len() - i,
        {
            match self.predict(&features[i]) {
                Ok(value) => {
                    answers.push(value);
                },
                Err(e) => {
                    proof {
                        let answer = |f: Self::Feature| self.predicts(f);
                        assert(answer(features@[i as int]) == Err::<Self::Value, ModelErrorView>(
                            e@,
                        ));
                        assert forall|j: int| 0 <= j < i implies (#[trigger] answer(
                            features@[j],
                        )) is Ok by {
                            assert(self.predicts(features@[j]) is Ok);
                        }
                    }
                    return Err(e);
                },
            }
            i += 1;
        }
        Ok(answers)
    }

    /// The model's parameters, for storing them.
    fn export_parameters(&self) -> (parameters: Result<Vec<Self::Value>, ModelError>);

    /// Replaces the model's parameters by stored ones.
    fn import_parameters(&mut self, parameters: Vec<Self::Value>) -> (outcome: Result<
        (),
        ModelError,
    >);

    /// The model's error metric on a validation set.
    fn validate(&self, features: &[Self::Feature], targets: &[Self::Value]) -> (error: Result<
        Self::Value,
        ModelError,
    >)
        ensures
            result_view(error) == self.validates(features@, targets@),
    ;

    /// A duplicate of the model that answers as this one does.
    fn clone_model(&self) -> (copy: Self)
        ensures
            forall|feature: Self::Feature| #[trigger]
                copy.predicts(feature) == self.predicts(feature),
            forall|features: Seq<Self::Feature>, targets: Seq<Self::Value>| #[trigger]
                copy.validates(features, targets) == self.validates(features, targets),
    ;
}

} // verus!
