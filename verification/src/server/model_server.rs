//! The two-slot model container: one copy serves, the other trains.

use crate::clock::micros_since;
use crate::clock::unix_seconds_now;
use crate::models::check_validation_data;
use crate::server::metrics::ModelStats;
use crate::traits::model;
use crate::traits::model::Model;
use crate::traits::model::ModelError;
use crate::traits::model::ModelErrorView;
use std::time::Instant;
use vstd::prelude::*;
use vstd::string::StringExecFns;

verus! {

/// `n + 1`, and the largest value where that does not fit.
pub open spec fn bumped(n: usize) -> usize {
    if n < usize::MAX {
        (n + 1) as usize
    } else {
        usize::MAX
    }
}

/// `n + k`, and the largest value where that does not fit.
pub open spec fn raised(n: usize, k: usize) -> usize {
    if n + k <= usize::MAX {
        (n + k) as usize
    } else {
        usize::MAX
    }
}

/// Why a training round on `n_features` features and `n_targets` targets
/// cannot start, if it cannot: the data is empty, the two lengths differ, or
/// (`busy`) a round is already in flight. The checks are made in that order.
pub open spec fn training_refusal(n_features: nat, n_targets: nat, busy: bool) -> Option<
    ModelErrorView,
> {
    if n_features == 0 || n_targets == 0 {
        Some(ModelErrorView::TrainingError("Empty training data"@))
    } else if n_features != n_targets {
        Some(
            ModelErrorView::DimensionMismatch {
                expected: n_features,
                actual: n_targets,
                context: "features vs targets length"@,
            },
        )
    } else if busy {
        Some(ModelErrorView::TrainingError("Training already in progress"@))
    } else {
        None
    }
}

/// The statistics after a training round that took `elapsed_us` and ended
/// at `now_secs`: a success is counted and timed, a failure only counted.
pub open spec fn after_training(
    before: ModelStats,
    succeeded: bool,
    elapsed_us: usize,
    now_secs: u64,
) -> ModelStats {
    if succeeded {
        ModelStats {
            training_count: bumped(before.training_count),
            latest_training_latency_us: elapsed_us,
            last_updated_at: now_secs,
            ..before
        }
    } else {
        ModelStats { training_errors: bumped(before.training_errors), ..before }
    }
}

/// The statistics after `served` predictions were asked for in one call that
/// took `elapsed_us`: a success counts each of them and records the latency
/// of one, a failure counts one error.
pub open spec fn after_prediction(
    before: ModelStats,
    succeeded: bool,
    served: usize,
    elapsed_us: usize,
) -> ModelStats {
    if succeeded {
        ModelStats {
            prediction_count: raised(before.prediction_count, served),
            latest_prediction_latency_us: if served <= 1 {
                elapsed_us
            } else {
                elapsed_us / served
            },
            ..before
        }
    } else {
        ModelStats { prediction_errors: bumped(before.prediction_errors), ..before }
    }
}

/// The statistics after a swap at `now_secs`.
pub open spec fn after_swap(before: ModelStats, now_secs: u64) -> ModelStats {
    ModelStats { version: bumped(before.version), last_updated_at: now_secs, ..before }
}

/// What comparing two models returns, from what each says of the
/// validation set: both metrics, or the error of the first that fails.
pub open spec fn comparison<V>(
    serving: Result<V, ModelErrorView>,
    candidate: Result<V, ModelErrorView>,
) -> Result<(V, V), ModelErrorView> {
    match serving {
        Err(e) => Err(e),
        Ok(serving_error) => match candidate {
            Err(e) => Err(e),
            Ok(candidate_error) => Ok((serving_error, candidate_error)),
        },
    }
}

/// A model in two copies. `current` answers predictions and changes only in
/// a swap; `training` is what the next training round works on. A flag marks
/// a round in flight, another whether the two copies are known to agree.
///
/// Every operation that changes the container takes it exclusively. Where
/// several threads share one container, they keep it behind a lock and take
/// the lock for one operation at a time: a prediction asks `get_current`
/// under the shared lock and then counts the call with `record_prediction`;
/// a training round claims the slot with `begin_training`, trains a
/// `training_copy` with no lock held, and ends with `install_training` and
/// `finish_training`. Whatever the order of such steps, the laws at the end
/// of this file hold.
pub struct AtomicModel<M: Model> {
    current: M,
    training: M,
    stats: ModelStats,
    training_in_progress: bool,
    models_in_sync: bool,
}

impl<M: Model> AtomicModel<M> {
    /// The copy that answers predictions.
    pub closed spec fn current(&self) -> M {
        self.current
    }

    /// The copy that training works on.
    pub closed spec fn training(&self) -> M {
        self.training
    }

    /// The statistics.
    pub closed spec fn stats(&self) -> ModelStats {
        self.stats
    }

    /// Whether a training round is in flight.
    pub closed spec fn training_in_progress(&self) -> bool {
        self.training_in_progress
    }

    /// Whether the copies are marked as agreeing.
    pub closed spec fn in_sync(&self) -> bool {
        self.models_in_sync
    }

    /// The invariant of the container: copies that are marked as agreeing
    /// give the same answers. Every container starts with it and every
    /// operation keeps it.
    pub open spec fn wf(&self) -> bool {
        self.in_sync() ==> model::same_answers(&self.training(), &self.current())
    }

    /// Whether `self` differs from `before` in its statistics at most.
    pub open spec fn same_models(&self, before: &Self) -> bool {
        &&& self.current() == before.current()
        &&& self.training() == before.training()
        &&& self.training_in_progress() == before.training_in_progress()
        &&& self.in_sync() == before.in_sync()
    }

    /// Whether `after` is `before` after a claim of the training slot for
    /// `n_features` features and `n_targets` targets that returned `claim`.
    /// A refusal changes nothing; a claim sets the in-flight flag and marks
    /// the copies as out of sync.
    pub open spec fn claimed(
        before: Self,
        after: Self,
        n_features: nat,
        n_targets: nat,
        claim: Result<(), ModelError>,
    ) -> bool {
        match training_refusal(n_features, n_targets, before.training_in_progress()) {
            Some(refusal) => {
                &&& claim is Err
                &&& claim->Err_0@ == refusal
                &&& after == before
            },
            None => {
                &&& claim is Ok
                &&& after.training_in_progress()
                &&& !after.in_sync()
                &&& after.current() == before.current()
                &&& after.training() == before.training()
                &&& after.stats() == before.stats()
            },
        }
    }

    /// Whether `after` is `before` after the end of a training round that
    /// took `elapsed_us` and ended at `now_secs` with `outcome`.
    pub open spec fn released(
        before: Self,
        after: Self,
        outcome: Result<(), ModelError>,
        elapsed_us: usize,
        now_secs: u64,
    ) -> bool {
        &&& !after.training_in_progress()
        &&& after.in_sync() == before.in_sync()
        &&& after.current() == before.current()
        &&& after.training() == before.training()
        &&& after.stats() == after_training(before.stats(), outcome is Ok, elapsed_us, now_secs)
    }

    /// Whether `after` is `before` after `train` on the given examples
    /// returned `outcome`. A refusal changes nothing. Else the training copy
    /// is what the model's own training left, the round has ended, the
    /// copies are out of sync and the statistics count the round. The
    /// serving copy is the same in every case.
    pub open spec fn trained(
        before: Self,
        after: Self,
        features: Seq<M::Feature>,
        targets: Seq<M::Value>,
        outcome: Result<(), ModelError>,
    ) -> bool {
        &&& after.current() == before.current()
        &&& match training_refusal(features.len(), targets.len(), before.training_in_progress()) {
            Some(refusal) => {
                &&& outcome is Err
                &&& outcome->Err_0@ == refusal
                &&& after == before
            },
            None => {
                &&& before.training().trains(
                    features,
                    targets,
                    &after.training(),
                    model::result_view(outcome),
                )
                &&& !after.training_in_progress()
                &&& !after.in_sync()
                &&& exists|elapsed_us: usize, now_secs: u64|
                    after.stats() == #[trigger] after_training(
                        before.stats(),
                        outcome is Ok,
                        elapsed_us,
                        now_secs,
                    )
            },
        }
    }

    /// Whether `after` is `before` with `trained` put into the training
    /// slot: the copies are out of sync, and nothing else has changed.
    pub open spec fn installed(before: Self, after: Self, trained: M) -> bool {
        &&& after.training() == trained
        &&& !after.in_sync()
        &&& after.current() == before.current()
        &&& after.stats() == before.stats()
        &&& after.training_in_progress() == before.training_in_progress()
    }

    /// Whether `after` is `before` after one call that asked for `served`
    /// predictions, took `elapsed_us` and succeeded or not.
    pub open spec fn counted(
        before: Self,
        after: Self,
        succeeded: bool,
        served: usize,
        elapsed_us: usize,
    ) -> bool {
        &&& after.same_models(&before)
        &&& after.stats() == after_prediction(before.stats(), succeeded, served, elapsed_us)
    }

    /// Whether `after` is `before` after `predict` on `feature` returned
    /// `answer`: the answer is the serving copy's, and only the statistics
    /// have changed.
    pub open spec fn predicted(
        before: Self,
        after: Self,
        feature: M::Feature,
        answer: Result<M::Value, ModelError>,
    ) -> bool {
        &&& model::result_view(answer) == before.current().predicts(feature)
        &&& exists|elapsed_us: usize| #[trigger]
            Self::counted(before, after, answer is Ok, 1, elapsed_us)
    }

    /// Whether `after` is `before` after `predict_batch` on `features`
    /// returned `answers`.
    pub open spec fn predicted_batch(
        before: Self,
        after: Self,
        features: Seq<M::Feature>,
        answers: Result<Vec<M::Value>, ModelError>,
    ) -> bool {
        &&& model::batch_answers(&before.current(), features, answers)
        &&& exists|elapsed_us: usize| #[trigger]
            Self::counted(before, after, answers is Ok, features.len() as usize, elapsed_us)
    }

    /// Whether `after` is `before` after a swap at `now_secs` returned
    /// `new_version`. While a training round is in flight the swap is
    /// refused and nothing changes. Else a duplicate of the training copy
    /// serves, the version has gone up by one and the copies are in sync.
    pub open spec fn swapped_at(
        before: Self,
        after: Self,
        now_secs: u64,
        new_version: Result<usize, ModelError>,
    ) -> bool {
        if before.training_in_progress() {
            &&& new_version is Err
            &&& new_version->Err_0@ == ModelErrorView::TrainingError(
                "Cannot swap while training in progress"@,
            )
            &&& after == before
        } else {
            &&& new_version == Ok::<usize, ModelError>(bumped(before.stats().version))
            &&& model::same_answers(&before.training(), &after.current())
            &&& after.training() == before.training()
            &&& after.in_sync()
            &&& !after.training_in_progress()
            &&& after.stats() == after_swap(before.stats(), now_secs)
        }
    }

    /// Whether `after` is `before` after a swap, at whatever time, returned
    /// `new_version`.
    pub open spec fn swapped(before: Self, after: Self, new_version: Result<usize, ModelError>) -> bool {
        exists|now_secs: u64| #[trigger] Self::swapped_at(before, after, now_secs, new_version)
    }

    /// What `compare_models` returns on a validation set, by its view.
    pub open spec fn compared(&self, features: Seq<M::Feature>, targets: Seq<M::Value>) -> Result<
        (M::Value, M::Value),
        ModelErrorView,
    > {
        match crate::models::validation_data_error(features.len(), targets.len()) {
            Some(refusal) => Err(refusal),
            None => comparison(
                self.current().validates(features, targets),
                self.training().validates(features, targets),
            ),
        }
    }

    /// A container with `initial_model` in the training slot, a duplicate of
    /// it in the serving slot and the given statistics.
    pub fn with_stats(initial_model: M, stats: ModelStats) -> (model: Self)
        ensures
            model.training() == initial_model,
            model::same_answers(&initial_model, &model.current()),
            model.stats() == stats,
            !model.training_in_progress(),
            model.in_sync(),
            model.wf(),
    {
        let current = initial_model.clone_model();
        AtomicModel {
            current,
            training: initial_model,
            stats,
            training_in_progress: false,
            models_in_sync: true,
        }
    }

    /// A container with `initial_model` in the training slot and a duplicate
    /// of it in the serving slot: in sync, not training, version 1.
    pub fn new(initial_model: M) -> (model: Self)
        ensures
            model.training() == initial_model,
            model::same_answers(&initial_model, &model.current()),
            model.stats().is_fresh(),
            !model.training_in_progress(),
            model.in_sync(),
            model.wf(),
    {
        AtomicModel::with_stats(initial_model, ModelStats::new())
    }

    /// The copy that answers predictions.
    pub fn get_current(&self) -> (current: &M)
        ensures
            *current == self.current(),
    {
        &self.current
    }

    /// The statistics.
    pub fn get_stats(&self) -> (stats: &ModelStats)
        ensures
            *stats == self.stats(),
    {
        &self.stats
    }

    /// The version of the serving copy.
    pub fn get_version(&self) -> (version: usize)
        ensures
            version == self.stats().version,
    {
        self.stats.version
    }

    /// Whether a training round is in flight.
    pub fn is_training(&self) -> (busy: bool)
        ensures
            busy == self.training_in_progress(),
    {
        self.training_in_progress
    }

    /// Whether the copies are marked as agreeing.
    pub fn is_in_sync(&self) -> (in_sync: bool)
        ensures
            in_sync == self.in_sync(),
    {
        self.models_in_sync
    }

    /// The statistics as one line of text.
    pub fn get_stats_formatted(&self) -> (line: String)
        ensures
            line@ == self.stats().line(),
    {
        self.stats.format_stats()
    }

    /// Claims the training slot for a round on `n_features` features and
    /// `n_targets` targets. A refusal changes nothing; a claim sets the
    /// in-flight flag and marks the copies as out of sync.
    pub fn begin_training(&mut self, n_features: usize, n_targets: usize) -> (claim: Result<
        (),
        ModelError,
    >)
        ensures
            Self::claimed(*old(self), *final(self), n_features as nat, n_targets as nat, claim),
            old(self).wf() ==> final(self).wf(),
    {
        if n_features == 0 || n_targets == 0 {
            return Err(ModelError::TrainingError(String::from_str("Empty training data")));
        }
        if n_features != n_targets {
            return Err(
                ModelError::DimensionMismatch {
                    expected: n_features,
                    actual: n_targets,
                    context: String::from_str("features vs targets length"),
                },
            );
        }
        if self.training_in_progress {
            return Err(
                ModelError::TrainingError(String::from_str("Training already in progress")),
            );
        }
        self.training_in_progress = true;
        self.models_in_sync = false;
        Ok(())
    }

    /// Ends a training round that took `elapsed_us` and ended at `now_secs`
    /// with `outcome`: updates the statistics, clears the in-flight flag and
    /// hands the outcome on.
    pub fn finish_training(
        &mut self,
        outcome: Result<(), ModelError>,
        elapsed_us: usize,
        now_secs: u64,
    ) -> (result: Result<(), ModelError>)
        ensures
            result == outcome,
            Self::released(*old(self), *final(self), outcome, elapsed_us, now_secs),
            old(self).wf() ==> final(self).wf(),
    {
        match outcome {
            Ok(()) => {
                self.stats.training_count = self.stats.training_count.saturating_add(1);
                self.stats.latest_training_latency_us = elapsed_us;
                self.stats.last_updated_at = now_secs;
            },
            Err(_) => {
                self.stats.training_errors = self.stats.training_errors.saturating_add(1);
            },
        }
        self.training_in_progress = false;
        outcome
    }

    /// Trains the training copy on a batch of examples. The serving copy is
    /// not touched, whatever the outcome.
    pub fn train(&mut self, features: &[M::Feature], targets: &[M::Value]) -> (outcome: Result<
        (),
        ModelError,
    >)
        ensures
            Self::trained(*old(self), *final(self), features@, targets@, outcome),
            old(self).wf() ==> final(self).wf(),
    {
        match self.begin_training(features.len(), targets.len()) {
            Err(refusal) => {
                return Err(refusal);
            },
            Ok(()) => {},
        }
        let started = Instant::now();
        let trained = self.training.train(features, targets);
        let elapsed_us = micros_since(&started);
        let now_secs = unix_seconds_now();
        self.finish_training(trained, elapsed_us, now_secs)
    }

    /// A duplicate of the training copy, for a round that runs on a model of
    /// its own while this container goes on serving.
    pub fn training_copy(&self) -> (copy: M)
        ensures
            model::same_answers(&self.training(), &copy),
    {
        self.training.clone_model()
    }

    /// Puts `trained` into the training slot and marks the copies as out of
    /// sync. The serving copy, the statistics and the in-flight flag stay.
    pub fn install_training(&mut self, trained: M)
        ensures
            Self::installed(*old(self), *final(self), trained),
            old(self).wf() ==> final(self).wf(),
    {
        self.models_in_sync = false;
        self.training = trained;
    }

    /// Counts one call that asked for `served` predictions and took
    /// `elapsed_us`. Only the statistics change.
    pub fn record_prediction(&mut self, succeeded: bool, served: usize, elapsed_us: usize)
        ensures
            Self::counted(*old(self), *final(self), succeeded, served, elapsed_us),
            old(self).wf() ==> final(self).wf(),
    {
        if succeeded {
            self.stats.prediction_count = self.stats.prediction_count.saturating_add(served);
            self.stats.latest_prediction_latency_us = if served <= 1 {
                elapsed_us
            } else {
                elapsed_us / served
            };
        } else {
            self.stats.prediction_errors = self.stats.prediction_errors.saturating_add(1);
        }
    }

    /// Asks the serving copy for one prediction and counts the call. The
    /// model's answer, an error too, is handed on as it is.
    pub fn predict(&mut self, feature: &M::Feature) -> (answer: Result<M::Value, ModelError>)
        ensures
            Self::predicted(*old(self), *final(self), *feature, answer),
            old(self).wf() ==> final(self).wf(),
    {
        let started = Instant::now();
        let answer = self.current.predict(feature);
        let elapsed_us = micros_since(&started);
        self.record_prediction(answer.is_ok(), 1, elapsed_us);
        answer
    }

    /// Asks the serving copy for a batch of predictions and counts the call:
    /// every feature on success, one error on failure. A batch that fails
    /// returns no partial result.
    pub fn predict_batch(&mut self, features: &[M::Feature]) -> (answers: Result<
        Vec<M::Value>,
        ModelError,
    >)
        ensures
            Self::predicted_batch(*old(self), *final(self), features@, answers),
            old(self).wf() ==> final(self).wf(),
    {
        let started = Instant::now();
        let answers = self.current.predict_batch(features);
        let elapsed_us = micros_since(&started);
        self.record_prediction(answers.is_ok(), features.len(), elapsed_us);
        proof {
            model::lemma_batch_answers(&old(self).current(), features@, answers);
            assert(features@.len() as usize == features.len());
        }
        answers
    }

    /// Promotes the training copy at `now_secs`: a duplicate of it becomes
    /// the serving copy, the version goes up by one and the copies are in
    /// sync. While a training round is in flight the swap is refused and
    /// nothing changes.
    pub fn swap_models_at(&mut self, now_secs: u64) -> (new_version: Result<usize, ModelError>)
        ensures
            Self::swapped_at(*old(self), *final(self), now_secs, new_version),
            old(self).wf() ==> final(self).wf(),
    {
        if self.training_in_progress {
            return Err(
                ModelError::TrainingError(
                    String::from_str("Cannot swap while training in progress"),
                ),
            );
        }
        let promoted = self.training.clone_model();
        self.current = promoted;
        self.stats.version = self.stats.version.saturating_add(1);
        self.stats.last_updated_at = now_secs;
        self.models_in_sync = true;
        Ok(self.stats.version)
    }

    /// Promotes the training copy now. See `swap_models_at`; the time of the
    /// update is the wall clock's.
    pub fn swap_models(&mut self) -> (new_version: Result<usize, ModelError>)
        ensures
            Self::swapped(*old(self), *final(self), new_version),
            old(self).wf() ==> final(self).wf(),
    {
        let now_secs = unix_seconds_now();
        self.swap_models_at(now_secs)
    }

    /// The serving copy's error metric on a validation set.
    pub fn validate(&self, features: &[M::Feature], targets: &[M::Value]) -> (error: Result<
        M::Value,
        ModelError,
    >)
        ensures
            model::result_view(error) == self.current().validates(
                features@,
                targets@,
            ),
    {
        self.current.validate(features, targets)
    }

    /// The error metrics of the serving copy and of the training copy on
    /// one validation set, in that order.
    pub fn compare_models(&self, features: &[M::Feature], targets: &[M::Value]) -> (errors:
        Result<(M::Value, M::Value), ModelError>)
        ensures
            model::result_view(errors) == self.compared(features@, targets@),
    {
        match check_validation_data(features.len(), targets.len()) {
            Err(refusal) => {
                return Err(refusal);
            },
            Ok(()) => {},
        }
        let current_error = match self.current.validate(features, targets) {
            Ok(error) => error,
            Err(e) => {
                return Err(e);
            },
        };
        let training_error = match self.training.validate(features, targets) {
            Ok(error) => error,
            Err(e) => {
                return Err(e);
            },
        };
        Ok((current_error, training_error))
    }
}

impl<M: Model> Clone for AtomicModel<M> {
    /// A container of its own with duplicates of both copies, the same
    /// flags and the statistics as they are now.
    fn clone(&self) -> (copy: Self)
        ensures
            model::same_answers(&self.current(), &copy.current()),
            model::same_answers(&self.training(), &copy.training()),
            copy.stats() == self.stats(),
            copy.training_in_progress() == self.training_in_progress(),
            copy.in_sync() == self.in_sync(),
            self.wf() ==> copy.wf(),
    {
        AtomicModel {
            current: self.current.clone_model(),
            training: self.training.clone_model(),
            stats: ModelStats {
                prediction_count: self.stats.prediction_count,
                training_count: self.stats.training_count,
                prediction_errors: self.stats.prediction_errors,
                training_errors: self.stats.training_errors,
                latest_prediction_latency_us: self.stats.latest_prediction_latency_us,
                latest_training_latency_us: self.stats.latest_training_latency_us,
                version: self.stats.version,
                created_at: self.stats.created_at,
                last_updated_at: self.stats.last_updated_at,
            },
            training_in_progress: self.training_in_progress,
            models_in_sync: self.models_in_sync,
        }
    }
}

/// One step of serving or training on a container: anything but a swap.
pub ghost enum ServingStep<M: Model> {
    /// A claim of the training slot (`begin_training`).
    Claim { n_features: nat, n_targets: nat, claim: Result<(), ModelError> },
    /// A trained model put into the training slot (`install_training`).
    Install { trained: M },
    /// The end of a training round (`finish_training`).
    Release { outcome: Result<(), ModelError>, elapsed_us: usize, now_secs: u64 },
    /// A whole training round (`train`).
    Train { features: Seq<M::Feature>, targets: Seq<M::Value>, outcome: Result<(), ModelError> },
    /// A prediction (`predict`).
    Predict { feature: M::Feature, answer: Result<M::Value, ModelError> },
    /// A batch of predictions (`predict_batch`).
    PredictBatch { features: Seq<M::Feature>, answers: Result<Vec<M::Value>, ModelError> },
}

impl<M: Model> AtomicModel<M> {
    /// Whether `step` leads from `before` to `after`.
    pub open spec fn stepped(before: Self, after: Self, step: ServingStep<M>) -> bool {
        match step {
            ServingStep::Claim { n_features, n_targets, claim } => Self::claimed(
                before,
                after,
                n_features,
                n_targets,
                claim,
            ),
            ServingStep::Install { trained } => Self::installed(before, after, trained),
            ServingStep::Release { outcome, elapsed_us, now_secs } => Self::released(
                before,
                after,
                outcome,
                elapsed_us,
                now_secs,
            ),
            ServingStep::Train { features, targets, outcome } => Self::trained(
                before,
                after,
                features,
                targets,
                outcome,
            ),
            ServingStep::Predict { feature, answer } => Self::predicted(
                before,
                after,
                feature,
                answer,
            ),
            ServingStep::PredictBatch { features, answers } => Self::predicted_batch(
                before,
                after,
                features,
                answers,
            ),
        }
    }

    /// No step but a swap touches the serving copy or the version.
    pub proof fn lemma_step_leaves_serving_copy(before: Self, after: Self, step: ServingStep<M>)
        requires
            Self::stepped(before, after, step),
        ensures
            after.current() == before.current(),
            after.stats().version == before.stats().version,
    {
    }

    /// No torn read. Let predictions and the steps of training rounds follow
    /// each other in any order and number, `states[i]` being the container
    /// before step `i`. Then the serving copy is the same throughout, and
    /// every prediction among the steps is the answer of the model that
    /// served before the first step: never that of a model in training.
    pub proof fn lemma_predictions_ignore_training(
        states: Seq<Self>,
        steps: Seq<ServingStep<M>>,
        i: int,
    )
        requires
            states.len() == steps.len() + 1,
            forall|k: int|
                0 <= k < steps.len() ==> #[trigger] Self::stepped(
                    states[k],
                    states[k + 1],
                    steps[k],
                ),
            0 <= i < steps.len(),
        ensures
            states[i].current() == states[0].current(),
            states[i + 1].current() == states[0].current(),
            steps[i] matches ServingStep::Predict { feature, answer } ==> model::result_view(answer)
                == states[0].current().predicts(feature),
            steps[i] matches ServingStep::PredictBatch { features, answers }
                ==> model::batch_answers(&states[0].current(), features, answers),
        decreases i,
    {
        assert(Self::stepped(states[i], states[i + 1], steps[i]));
        Self::lemma_step_leaves_serving_copy(states[i], states[i + 1], steps[i]);
        if i > 0 {
            Self::lemma_predictions_ignore_training(states, steps, i - 1);
        }
    }

    /// A swap is refused exactly while a training round is in flight, and
    /// then changes nothing. Any other swap succeeds, returns the new
    /// version and raises the version by exactly one (below the largest
    /// number that the counter holds, where it stays).
    pub proof fn lemma_swap_succeeds_unless_training(
        before: Self,
        after: Self,
        new_version: Result<usize, ModelError>,
    )
        requires
            Self::swapped(before, after, new_version),
        ensures
            new_version is Err <==> before.training_in_progress(),
            before.training_in_progress() ==> after == before,
            !before.training_in_progress() ==> new_version == Ok::<usize, ModelError>(
                after.stats().version,
            ),
            !before.training_in_progress() && before.stats().version < usize::MAX
                ==> after.stats().version == before.stats().version + 1,
            after.stats().version >= before.stats().version,
    {
    }

    /// After a training round and a swap the copies are in sync, and the
    /// serving copy answers every feature as the training copy does.
    pub proof fn lemma_train_then_swap_in_sync(
        before: Self,
        between: Self,
        after: Self,
        features: Seq<M::Feature>,
        targets: Seq<M::Value>,
        outcome: Result<(), ModelError>,
        new_version: Result<usize, ModelError>,
        feature: M::Feature,
    )
        requires
            !before.training_in_progress(),
            Self::trained(before, between, features, targets, outcome),
            Self::swapped(between, after, new_version),
        ensures
            new_version is Ok,
            after.in_sync(),
            after.training() == between.training(),
            after.current().predicts(feature) == after.training().predicts(feature),
            model::same_answers(&after.training(), &after.current()),
    {
    }

    /// One training round at a time. Once the training slot is claimed,
    /// every further claim and every further `train` is refused until the
    /// round has ended, with "Training already in progress" where its data
    /// is in order, and leaves the container as it is: the round in flight
    /// is never disturbed.
    pub proof fn lemma_one_round_at_a_time(
        before: Self,
        claimed: Self,
        after: Self,
        n_features: nat,
        n_targets: nat,
        second: ServingStep<M>,
    )
        requires
            Self::claimed(before, claimed, n_features, n_targets, Ok(())),
            second is Claim || second is Train,
            Self::stepped(claimed, after, second),
        ensures
            after == claimed,
            second matches ServingStep::Claim { n_features: n, n_targets: m, claim } ==> {
                &&& claim is Err
                &&& n > 0 && n == m ==> claim->Err_0@ == ModelErrorView::TrainingError(
                    "Training already in progress"@,
                )
            },
            second matches ServingStep::Train { features, targets, outcome } ==> {
                &&& outcome is Err
                &&& features.len() > 0 && features.len() == targets.len() ==> outcome->Err_0@
                    == ModelErrorView::TrainingError("Training already in progress"@)
            },
    {
    }

    /// Every step and every swap keeps the invariant.
    pub proof fn lemma_steps_keep_wf(before: Self, after: Self, step: ServingStep<M>)
        requires
            before.wf(),
            Self::stepped(before, after, step),
        ensures
            after.wf(),
    {
    }

    /// A swap keeps the invariant.
    pub proof fn lemma_swap_keeps_wf(
        before: Self,
        after: Self,
        new_version: Result<usize, ModelError>,
    )
        requires
            before.wf(),
            Self::swapped(before, after, new_version),
        ensures
            after.wf(),
    {
    }
}

} // verus!
