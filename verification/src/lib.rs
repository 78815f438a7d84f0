//! Zero-downtime model serving.
//!
//! A model is served in two copies: one answers predictions, the other is
//! trained in the background and promoted in a single step, so that no
//! prediction ever sees a model that is half updated.
//!
//! - [`traits::model`]: the `Model` capability and the errors.
//! - [`server::metrics`]: the statistics of one model.
//! - [`server::continuous_learning`]: the settings of continuous learning
//!   and the bounded buffer of examples.
//! - [`server::model_server`]: `AtomicModel`, the two-copy container, with
//!   its laws.
//! - [`server::learning`]: one registered model and the policy that trains,
//!   validates and promotes it.
//! - [`server::server`]: `ModelServer`, the registry of models by name, and
//!   the cycle of continuous learning.
//! - [`server::api`]: values of the request layer.
//! - [`models`]: what a regression model decides before it computes.
//!
//! Every operation is a short step on a value that the caller holds
//! exclusively, and says in its contract what that step does. A caller that
//! shares a registry between threads keeps it behind a lock of its own and
//! takes the lock for one step at a time; sleeping, waiting and the models'
//! arithmetic are the caller's.

pub mod clock;
pub mod models;
pub mod server;
pub mod text;
pub mod traits;

pub use models::FitMethod;
pub use server::api::ApiError;
pub use server::api::ModelInfo;
pub use server::api::ModelKind;
pub use server::continuous_learning::ContinuousLearningConfig;
pub use server::continuous_learning::TrainingBuffer;
pub use server::learning::LearningOutcome;
pub use server::learning::LearningReport;
pub use server::learning::LearningStart;
pub use server::learning::ModelEntry;
pub use server::learning::Promotion;
pub use server::learning::TrainingJob;
pub use server::metrics::ModelStats;
pub use server::model_server::AtomicModel;
pub use server::server::ModelServer;
pub use traits::model::Examples;
pub use traits::model::Model;
pub use traits::model::ModelError;
pub use traits::model::ModelErrorView;
