//! What a regression model decides before it computes: whether its input is
//! in order, which width a feature must have, and how to fit. The arithmetic
//! itself is in floating point and not part of this library.

use crate::traits::model::ModelError;
use crate::traits::model::ModelErrorView;
use vstd::prelude::*;
use vstd::string::StringExecFns;

verus! {

/// How a regression model is fitted to a batch of examples.
#[derive(Debug, Clone, Copy, PartialEq, Eq, Structural)]
pub enum FitMethod {
    /// By solving the normal equations.
    ClosedForm,
    /// By gradient descent.
    GradientDescent,
}

/// The widest design matrix that is fitted in closed form.
pub const CLOSED_FORM_COLUMNS: usize = 1000;

/// Why a model cannot be trained on `n_features` features and `n_targets`
/// targets, if it cannot: the data is empty, or the two lengths differ.
pub open spec fn training_data_error(n_features: nat, n_targets: nat) -> Option<ModelErrorView> {
    if n_features == 0 || n_targets == 0 {
        Some(ModelErrorView::TrainingError("Empty training data"@))
    } else if n_features != n_targets {
        Some(
            ModelErrorView::DimensionMismatch {
                expected: n_features,
                actual: n_targets,
                context: "Number of feature vectors doesn't match number of targets"@,
            },
        )
    } else {
        None
    }
}

/// Why a model cannot be validated on `n_features` features and `n_targets`
/// targets, if it cannot: the data is empty, or the two lengths differ.
pub open spec fn validation_data_error(n_features: nat, n_targets: nat) -> Option<ModelErrorView> {
    if n_features == 0 || n_targets == 0 {
        Some(ModelErrorView::ValidationError("Empty validation data"@))
    } else if n_features != n_targets {
        Some(
            ModelErrorView::DimensionMismatch {
                expected: n_features,
                actual: n_targets,
                context: "Validation features vs targets"@,
            },
        )
    } else {
        None
    }
}

/// The width of the features that a model with `n_weights` weights answers:
/// one less than the weights where one of them is the bias.
pub open spec fn feature_width(n_weights: nat, with_bias: bool) -> nat {
    if with_bias && n_weights > 0 {
        (n_weights - 1) as nat
    } else {
        n_weights
    }
}

/// Why a model cannot answer a feature of width `dimension`, if it cannot:
/// it has not been trained, or the feature has the wrong width.
pub open spec fn prediction_error(
    trained: bool,
    n_weights: nat,
    with_bias: bool,
    dimension: nat,
) -> Option<ModelErrorView> {
    if !trained {
        Some(ModelErrorView::PredictionError("Model not trained"@))
    } else if dimension != feature_width(n_weights, with_bias) || (with_bias && n_weights == 0) {
        Some(
            ModelErrorView::DimensionMismatch {
                expected: feature_width(n_weights, with_bias),
                actual: dimension,
                context: "Feature dimension doesn't match model weights"@,
            },
        )
    } else {
        None
    }
}

/// A design matrix of `n_rows` rows and `n_cols` columns is fitted in closed
/// form where it is narrow enough and has more rows than columns, and by
/// gradient descent else.
pub open spec fn chosen_fit(n_rows: nat, n_cols: nat) -> FitMethod {
    if n_cols < CLOSED_FORM_COLUMNS && n_rows > n_cols {
        FitMethod::ClosedForm
    } else {
        FitMethod::GradientDescent
    }
}

/// Checks the size of a batch of training examples.
pub fn check_training_data(n_features: usize, n_targets: usize) -> (outcome: Result<
    (),
    ModelError,
>)
    ensures
        match training_data_error(n_features as nat, n_targets as nat) {
            Some(error) => outcome is Err && outcome->Err_0@ == error,
            None => outcome is Ok,
        },
{
    if n_features == 0 || n_targets == 0 {
        return Err(ModelError::TrainingError(String::from_str("Empty training data")));
    }
    if n_features != n_targets {
        return Err(
            ModelError::DimensionMismatch {
                expected: n_features,
                actual: n_targets,
                context: String::from_str(
                    "Number of feature vectors doesn't match number of targets",
                ),
            },
        );
    }
    Ok(())
}

/// Checks the size of a validation set.
pub fn check_validation_data(n_features: usize, n_targets: usize) -> (outcome: Result<
    (),
    ModelError,
>)
    ensures
        match validation_data_error(n_features as nat, n_targets as nat) {
            Some(error) => outcome is Err && outcome->Err_0@ == error,
            None => outcome is Ok,
        },
{
    if n_features == 0 || n_targets == 0 {
        return Err(ModelError::ValidationError(String::from_str("Empty validation data")));
    }
    if n_features != n_targets {
        return Err(
            ModelError::DimensionMismatch {
                expected: n_features,
                actual: n_targets,
                context: String::from_str("Validation features vs targets"),
            },
        );
    }
    Ok(())
}

/// Checks that a model with `n_weights` weights can answer a feature of
/// width `dimension`. After a check that passes, weight `i + offset`
/// belongs to value `i` of the feature, `offset` being one with a bias and
/// zero without.
pub fn check_prediction_input(
    trained: bool,
    n_weights: usize,
    with_bias: bool,
    dimension: usize,
) -> (outcome: Result<(), ModelError>)
    ensures
        match prediction_error(trained, n_weights as nat, with_bias, dimension as nat) {
            Some(error) => outcome is Err && outcome->Err_0@ == error,
            None => {
                &&& outcome is Ok
                &&& dimension + (if with_bias {
                    1nat
                } else {
                    0nat
                }) == n_weights
            },
        },
{
    if !trained {
        return Err(ModelError::PredictionError(String::from_str("Model not trained")));
    }
    let expected = if with_bias && n_weights > 0 {
        n_weights - 1
    } else {
        n_weights
    };
    if dimension != expected || (with_bias && n_weights == 0) {
        return Err(
            ModelError::DimensionMismatch {
                expected,
                actual: dimension,
                context: String::from_str("Feature dimension doesn't match model weights"),
            },
        );
    }
    Ok(())
}

/// Checks that stored parameters are not empty.
pub fn check_parameters(n_parameters: usize) -> (outcome: Result<(), ModelError>)
    ensures
        n_parameters == 0 ==> outcome is Err && outcome->Err_0@
            == ModelErrorView::InvalidParameter("Empty parameters"@),
        n_parameters > 0 ==> outcome is Ok,
{
    if n_parameters == 0 {
        return Err(ModelError::InvalidParameter(String::from_str("Empty parameters")));
    }
    Ok(())
}

/// How to fit a design matrix of `n_rows` rows and `n_cols` columns.
pub fn fit_method(n_rows: usize, n_cols: usize) -> (method: FitMethod)
    ensures
        method == chosen_fit(n_rows as nat, n_cols as nat),
{
    if n_cols < CLOSED_FORM_COLUMNS && n_rows > n_cols {
        FitMethod::ClosedForm
    } else {
        FitMethod::GradientDescent
    }
}

} // verus!
