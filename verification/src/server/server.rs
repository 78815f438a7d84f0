//! The registry: models by name, each with its buffer of examples, and the
//! cycle of continuous learning over them.

use crate::server::api::ModelInfo;
use crate::server::continuous_learning::ContinuousLearningConfig;
use crate::server::continuous_learning::TrainingBuffer;
use crate::server::learning::LearningOutcome;
use crate::server::learning::LearningReport;
use crate::server::learning::LearningStart;
use crate::server::learning::ModelEntry;
use crate::server::learning::Promotion;
use crate::server::metrics::ModelStats;
use crate::server::model_server;
use crate::server::model_server::AtomicModel;
use crate::server::names;
use crate::traits::model;
use crate::traits::model::Model;
use crate::traits::model::ModelError;
use crate::traits::model::ModelErrorView;
use vstd::prelude::*;
use vstd::string::StringExecFns;

verus! {

/// The error for a name that no model is registered under.
pub open spec fn not_found(name: Seq<char>) -> ModelErrorView {
    ModelErrorView::InvalidParameter("Model '"@ + name + "' not found"@)
}

/// The error for a name that a model is registered under already.
pub open spec fn already_exists(name: Seq<char>) -> ModelErrorView {
    ModelErrorView::InvalidParameter("Model '"@ + name + "' already exists"@)
}

/// The names of the entries, in their order.
pub open spec fn names_of<M: Model>(entries: Seq<ModelEntry<M>>) -> Seq<Seq<char>> {
    Seq::new(entries.len(), |i: int| entries[i].name@)
}

/// Whether a model is registered under the given name.
pub open spec fn registered<M: Model>(entries: Seq<ModelEntry<M>>, name: Seq<char>) -> bool {
    names::place(names_of(entries), name) is Some
}

/// Where the model with the given name stands, if there is one: a name
/// belongs to the first entry that has it.
pub open spec fn slot<M: Model>(entries: Seq<ModelEntry<M>>, name: Seq<char>) -> Option<int> {
    names::place(names_of(entries), name)
}

/// Whether no two entries have the same name.
pub open spec fn distinct_names<M: Model>(entries: Seq<ModelEntry<M>>) -> bool {
    forall|i: int, j: int|
        0 <= i < j < entries.len() ==> (#[trigger] names_of(entries)[i]) != (#[trigger] names_of(
            entries,
        )[j])
}

/// Whether `after` differs from `before` in entry `i` at most, and that
/// entry has kept its name.
pub open spec fn changed_at<M: Model>(
    before: Seq<ModelEntry<M>>,
    after: Seq<ModelEntry<M>>,
    i: int,
) -> bool {
    &&& after.len() == before.len()
    &&& 0 <= i < before.len()
    &&& names_of(after) == names_of(before)
    &&& forall|k: int| 0 <= k < before.len() && k != i ==> #[trigger] after[k] == before[k]
}

/// The statistics after predictions were asked for one by one, each in a
/// call of its own: `answered` of them were answered, the last in
/// `latency_us`, and then one failed (`failed`) or none.
pub open spec fn after_asking(
    before: ModelStats,
    answered: usize,
    failed: bool,
    latency_us: usize,
) -> ModelStats {
    ModelStats {
        prediction_count: model_server::raised(before.prediction_count, answered),
        latest_prediction_latency_us: if answered == 0 {
            before.latest_prediction_latency_us
        } else {
            latency_us
        },
        prediction_errors: if failed {
            model_server::bumped(before.prediction_errors)
        } else {
            before.prediction_errors
        },
        ..before
    }
}

/// Whether `after` is `before` after its serving copy was asked about
/// `features` one by one and `answers` came back: the answers are the
/// serving copy's, up to the first feature that it could not answer, only
/// the statistics have changed, and they count each answer and the failure.
pub open spec fn asked_one_by_one<M: Model>(
    before: AtomicModel<M>,
    after: AtomicModel<M>,
    features: Seq<M::Feature>,
    answers: Result<Vec<M::Value>, ModelError>,
) -> bool {
    &&& model::batch_answers(&before.current(), features, answers)
    &&& after.same_models(&before)
    &&& exists|answered: usize, latency_us: usize|
        {
            &&& after.stats() == #[trigger] after_asking(
                before.stats(),
                answered,
                answers is Err,
                latency_us,
            )
            &&& answered <= features.len()
            &&& forall|j: int|
                0 <= j < answered ==> (#[trigger] before.current().predicts(features[j])) is Ok
            &&& if answers is Ok {
                answered == features.len()
            } else {
                before.current().predicts(features[answered as int]) is Err
            }
        }
}

/// Whether `entry` is a registration of `model` under `name` that nothing
/// has happened to yet.
pub open spec fn fresh_entry<M: Model>(entry: ModelEntry<M>, name: Seq<char>, model: M) -> bool {
    &&& entry.name@ == name
    &&& entry.model.training() == model
    &&& model::same_answers(&model, &entry.model.current())
    &&& entry.model.stats().is_fresh()
    &&& !entry.model.training_in_progress()
    &&& entry.model.in_sync()
    &&& entry.buffer.is_empty()
    &&& entry.buffer.max_size is None
}

/// A registry of models by name. Each model has a container and a buffer of
/// its own, so that one model's failure never touches another.
pub struct ModelServer<M: Model> {
    entries: Vec<ModelEntry<M>>,
    config: ContinuousLearningConfig,
    running: bool,
}

impl<M: Model> ModelServer<M> {
    /// The registered models, in the order of their registration.
    pub closed spec fn entries(&self) -> Seq<ModelEntry<M>> {
        self.entries@
    }

    /// The settings of continuous learning.
    pub closed spec fn config(&self) -> ContinuousLearningConfig {
        self.config
    }

    /// Whether continuous learning has been started and not stopped.
    pub closed spec fn running(&self) -> bool {
        self.running
    }

    /// The invariant of the registry: no name is registered twice, and each
    /// container and each buffer has its own invariant. Every registry
    /// starts with it and every operation keeps it.
    pub open spec fn wf(&self) -> bool {
        &&& distinct_names(self.entries())
        &&& forall|i: int|
            0 <= i < self.entries().len() ==> {
                &&& (#[trigger] self.entries()[i]).model.wf()
                &&& self.entries()[i].buffer.wf()
            }
    }

    /// Whether `self` has the settings and the running flag of `before`.
    pub open spec fn same_settings(&self, before: &Self) -> bool {
        &&& self.config() == before.config()
        &&& self.running() == before.running()
    }

    /// An empty registry with the given settings, not running.
    pub fn new(config: ContinuousLearningConfig) -> (server: Self)
        ensures
            server.entries().len() == 0,
            server.config() == config,
            !server.running(),
            server.wf(),
    {
        ModelServer { entries: Vec::new(), config, running: false }
    }

    /// An empty registry with the usual settings.
    pub fn default() -> (server: Self)
        ensures
            server.entries().len() == 0,
            server.config() == ContinuousLearningConfig::usual(),
            !server.running(),
            server.wf(),
    {
        ModelServer::new(ContinuousLearningConfig::default())
    }

    /// The settings of continuous learning.
    pub fn get_config(&self) -> (config: ContinuousLearningConfig)
        ensures
            config == self.config(),
    {
        self.config
    }

    fn find(&self, name: &str) -> (found: Option<usize>)
        ensures
            match found {
                Some(i) => slot(self.entries(), name@) == Some(i as int) && i < self.entries().len(),
                None => slot(self.entries(), name@) is None,
            },
    {
        let wanted = String::from_str(name);
        let ghost listed = names_of(self.entries());
        let mut i: usize = 0;
        while i < self.entries.len()
            invariant
                i <= self.entries.len(),
                wanted@ == name@,
                listed == names_of(self.entries()),
                forall|j: int| 0 <= j < i ==> #[trigger] listed[j] != name@,
            decreases self.entries.len() - i,
        {
            if self.entries[i].name == wanted {
                proof {
                    assert(listed[i as int] == name@);
                    names::lemma_place_is_first(listed, name@, i as int);
                }
                return Some(i);
            }
            assert(listed[i as int] != name@);
            i += 1;
        }
        proof {
            names::lemma_no_place(listed, name@);
        }
        None
    }

    fn missing(name: &str) -> (error: ModelError)
        ensures
            error@ == not_found(name@),
    {
        let mut message = String::from_str("Model '");
        message.append(name);
        message.append("' not found");
        ModelError::InvalidParameter(message)
    }

    /// Registers `model` under `name` with an empty buffer. A name that is
    /// taken is refused, and the registry stays as it is.
    pub fn register_model(&mut self, name: &str, model: M) -> (outcome: Result<(), ModelError>)
        ensures
            final(self).same_settings(old(self)),
            old(self).wf() ==> final(self).wf(),
            if registered(old(self).entries(), name@) {
                &&& outcome is Err
                &&& outcome->Err_0@ == already_exists(name@)
                &&& final(self).entries() == old(self).entries()
            } else {
                &&& outcome is Ok
                &&& final(self).entries().len() == old(self).entries().len() + 1
                &&& final(self).entries().drop_last() == old(self).entries()
                &&& fresh_entry(final(self).entries().last(), name@, model)
                &&& slot(final(self).entries(), name@) == Some(old(self).entries().len() as int)
                &&& forall|other: Seq<char>|
                    other != name@ ==> #[trigger] slot(final(self).entries(), other) == slot(
                        old(self).entries(),
                        other,
                    )
            },
    {
        if self.find(name).is_some() {
            let mut message = String::from_str("Model '");
            message.append(name);
            message.append("' already exists");
            return Err(ModelError::InvalidParameter(message));
        }
        let entry = ModelEntry {
            name: String::from_str(name),
            model: AtomicModel::new(model),
            buffer: TrainingBuffer::new(),
        };
        self.entries.push(entry);
        proof {
            assert(final(self).entries().drop_last() =~= old(self).entries());
            let before = names_of(old(self).entries());
            let after = names_of(self.entries());
            assert(after =~= before.push(name@));
            names::lemma_place_after_push(before, name@);
            if old(self).wf() {
                assert forall|i: int, j: int| 0 <= i < j < after.len() implies (
                #[trigger] after[i]) != (#[trigger] after[j]) by {
                    assert(after[i] == before[i]);
                    if j == after.len() - 1 {
                        if before[i] == name@ {
                            names::lemma_some_place(before, name@, i);
                        }
                    } else {
                        assert(after[j] == before[j]);
                    }
                }
            }
        }
        Ok(())
    }

    /// Removes the model registered under `name`, with its buffer. An
    /// unknown name is refused, and the registry stays as it is.
    pub fn unregister_model(&mut self, name: &str) -> (outcome: Result<(), ModelError>)
        ensures
            final(self).same_settings(old(self)),
            old(self).wf() ==> final(self).wf(),
            match slot(old(self).entries(), name@) {
                None => {
                    &&& outcome is Err
                    &&& outcome->Err_0@ == not_found(name@)
                    &&& final(self).entries() == old(self).entries()
                },
                Some(i) => {
                    &&& outcome is Ok
                    &&& final(self).entries() == old(self).entries().remove(i)
                    &&& old(self).wf() ==> slot(final(self).entries(), name@) is None
                    &&& old(self).wf() ==> forall|other: Seq<char>|
                        other != name@ && slot(old(self).entries(), other) is Some ==> (
                        #[trigger] slot(final(self).entries(), other)) is Some
                },
            },
    {
        match self.find(name) {
            None => Err(Self::missing(name)),
            Some(i) => {
                let _ = self.entries.remove(i);
                proof {
                    let before = names_of(old(self).entries());
                    let after = names_of(self.entries());
                    assert(after =~= before.remove(i as int));
                    if old(self).wf() {
                        names::lemma_place_after_remove(before, i as int);
                    }
                }
                Ok(())
            },
        }
    }

    /// The container of the model registered under `name`.
    pub fn get_model(&self, name: &str) -> (found: Result<&AtomicModel<M>, ModelError>)
        ensures
            match slot(self.entries(), name@) {
                None => found is Err && found->Err_0@ == not_found(name@),
                Some(i) => found is Ok && *found->Ok_0 == self.entries()[i].model,
            },
    {
        match self.find(name) {
            None => Err(Self::missing(name)),
            Some(i) => Ok(&self.entries[i].model),
        }
    }

    /// The buffer of the model registered under `name`.
    pub fn get_buffer(&self, name: &str) -> (found: Result<
        &TrainingBuffer<M::Feature, M::Value>,
        ModelError,
    >)
        ensures
            match slot(self.entries(), name@) {
                None => found is Err && found->Err_0@ == not_found(name@),
                Some(i) => found is Ok && *found->Ok_0 == self.entries()[i].buffer,
            },
    {
        match self.find(name) {
            None => Err(Self::missing(name)),
            Some(i) => Ok(&self.entries[i].buffer),
        }
    }

    /// The names of the registered models, in the order of their
    /// registration.
    pub fn list_models(&self) -> (names: Vec<String>)
        ensures
            names@.len() == self.entries().len(),
            forall|i: int|
                0 <= i < names@.len() ==> (#[trigger] names@[i])@ == self.entries()[i].name@,
    {
        let mut names: Vec<String> = Vec::with_capacity(self.entries.len());
        let mut i: usize = 0;
        while i < self.entries.len()
            invariant
                i <= self.entries.len(),
                names@.len() == i,
                forall|k: int| 0 <= k < i ==> (#[trigger] names@[k])@ == self.entries@[k].name@,
            decreases self.entries.len() - i,
        {
            names.push(self.entries[i].name.clone());
            i += 1;
        }
        names
    }

    /// The statistics line of the model registered under `name`.
    pub fn get_model_stats(&self, name: &str) -> (line: Result<String, ModelError>)
        ensures
            match slot(self.entries(), name@) {
                None => line is Err && line->Err_0@ == not_found(name@),
                Some(i) => line is Ok && line->Ok_0@ == self.entries()[i].model.stats().line(),
            },
    {
        match self.find(name) {
            None => Err(Self::missing(name)),
            Some(i) => Ok(self.entries[i].model.get_stats_formatted()),
        }
    }

    /// Name, version, training flag and statistics line of the model
    /// registered under `name`.
    pub fn get_model_info(&self, name: &str) -> (info: Result<ModelInfo, ModelError>)
        ensures
            match slot(self.entries(), name@) {
                None => info is Err && info->Err_0@ == not_found(name@),
                Some(i) => {
                    &&& info is Ok
                    &&& info->Ok_0.name@ == name@
                    &&& info->Ok_0.version == self.entries()[i].model.stats().version
                    &&& info->Ok_0.is_training == self.entries()[i].model.training_in_progress()
                    &&& info->Ok_0.stats@ == self.entries()[i].model.stats().line()
                },
            },
    {
        match self.find(name) {
            None => Err(Self::missing(name)),
            Some(i) => Ok(
                ModelInfo {
                    name: String::from_str(name),
                    version: self.entries[i].model.get_version(),
                    is_training: self.entries[i].model.is_training(),
                    stats: self.entries[i].model.get_stats_formatted(),
                },
            ),
        }
    }

    /// Buffers one example for the model registered under `name`: a
    /// validation example where `is_validation`, else a training example.
    pub fn add_training_example(
        &mut self,
        name: &str,
        feature: M::Feature,
        target: M::Value,
        is_validation: bool,
    ) -> (outcome: Result<(), ModelError>)
        ensures
            final(self).same_settings(old(self)),
            old(self).wf() ==> final(self).wf(),
            match slot(old(self).entries(), name@) {
                None => {
                    &&& outcome is Err
                    &&& outcome->Err_0@ == not_found(name@)
                    &&& final(self).entries() == old(self).entries()
                },
                Some(i) => {
                    &&& outcome is Ok
                    &&& changed_at(old(self).entries(), final(self).entries(), i)
                    &&& final(self).entries()[i].model == old(self).entries()[i].model
                    &&& TrainingBuffer::added(
                        old(self).entries()[i].buffer,
                        final(self).entries()[i].buffer,
                        feature,
                        target,
                        is_validation,
                    )
                },
            },
    {
        match self.find(name) {
            None => Err(Self::missing(name)),
            Some(i) => {
                self.entries[i].buffer.add(feature, target, is_validation);
                proof {
                    assert(names_of(self.entries()) =~= names_of(old(self).entries()));
                }
                Ok(())
            },
        }
    }

    /// Asks the model registered under `name` for one prediction.
    pub fn predict(&mut self, name: &str, feature: &M::Feature) -> (answer: Result<
        M::Value,
        ModelError,
    >)
        ensures
            final(self).same_settings(old(self)),
            old(self).wf() ==> final(self).wf(),
            match slot(old(self).entries(), name@) {
                None => {
                    &&& answer is Err
                    &&& answer->Err_0@ == not_found(name@)
                    &&& final(self).entries() == old(self).entries()
                },
                Some(i) => {
                    &&& changed_at(old(self).entries(), final(self).entries(), i)
                    &&& final(self).entries()[i].buffer == old(self).entries()[i].buffer
                    &&& AtomicModel::predicted(
                        old(self).entries()[i].model,
                        final(self).entries()[i].model,
                        *feature,
                        answer,
                    )
                },
            },
    {
        match self.find(name) {
            None => Err(Self::missing(name)),
            Some(i) => {
                let answer = self.entries[i].model.predict(feature);
                proof {
                    assert(names_of(self.entries()) =~= names_of(old(self).entries()));
                }
                answer
            },
        }
    }

    /// Asks the model registered under `name` for a prediction on each of
    /// `features`, one call per feature, and stops at the first that fails:
    /// a batch that fails returns no partial result.
    pub fn predict_batch(&mut self, name: &str, features: &[M::Feature]) -> (answers: Result<
        Vec<M::Value>,
        ModelError,
    >)
        ensures
            final(self).same_settings(old(self)),
            old(self).wf() ==> final(self).wf(),
            match slot(old(self).entries(), name@) {
                None => {
                    &&& answers is Err
                    &&& answers->Err_0@ == not_found(name@)
                    &&& final(self).entries() == old(self).entries()
                },
                Some(i) => {
                    &&& changed_at(old(self).entries(), final(self).entries(), i)
                    &&& final(self).entries()[i].buffer == old(self).entries()[i].buffer
                    &&& asked_one_by_one(
                        old(self).entries()[i].model,
                        final(self).entries()[i].model,
                        features@,
                        answers,
                    )
                },
            },
    {
        let i = match self.find(name) {
            None => {
                return Err(Self::missing(name));
            },
            Some(i) => i,
        };
        let ghost before = old(self).entries()[i as int].model;
        let ghost mut latency_us: usize = 0;
        let mut answers: Vec<M::Value> = Vec::with_capacity(features.len());
        let mut k: usize = 0;
        while k < features.len()
            invariant
                k <= features.len(),
                0 <= i < old(self).entries().len(),
                slot(old(self).entries(), name@) == Some(i as int),
                old(self).wf() ==> self.wf(),
                before == old(self).entries()[i as int].model,
                self.same_settings(old(self)),
                changed_at(old(self).entries(), self.entries(), i as int),
                self.entries()[i as int].buffer == old(self).entries()[i as int].buffer,
                self.entries()[i as int].model.same_models(&before),
                self.entries()[i as int].model.stats() == after_asking(
                    before.stats(),
                    k,
                    false,
                    latency_us,
                ),
                answers@.len() == k,
                forall|j: int|
                    0 <= j < k ==> #[trigger] before.current().predicts(features@[j]) == Ok::<
                        M::Value,
                        ModelErrorView,
                    >(answers@[j]),
                before.wf() ==> self.entries()[i as int].model.wf(),
            decreases features.len() - k,
        {
            let ghost asked = self.entries()[i as int].model;
            let answer = self.entries[i].model.predict(&features[k]);
            proof {
                assert(names_of(self.entries()) =~= names_of(old(self).entries()));
                let counted = self.entries()[i as int].model;
                let elapsed_us = choose|elapsed_us: usize| #[trigger]
                    AtomicModel::counted(asked, counted, answer is Ok, 1, elapsed_us);
                if answer is Ok {
                    latency_us = elapsed_us;
                }
            }
            match answer {
                Ok(value) => {
                    answers.push(value);
                },
                Err(e) => {
                    proof {
                        assert(before.current().predicts(features@[k as int]) == Err::<
                            M::Value,
                            ModelErrorView,
                        >(e@));
                        assert forall|j: int| 0 <= j < k implies (
                        #[trigger] before.current().predicts(features@[j])) is Ok by {
                            assert(before.current().predicts(features@[j]) == Ok::<
                                M::Value,
                                ModelErrorView,
                            >(answers@[j]));
                        }
                        let after = self.entries()[i as int].model;
                        assert(after.stats() == after_asking(
                            before.stats(),
                            k,
                            true,
                            latency_us,
                        ));
                        assert(model::batch_answers(
                            &before.current(),
                            features@,
                            Err::<Vec<M::Value>, ModelError>(e),
                        ));
                        assert(after.same_models(&before));
                        assert(before.current().predicts(features@[k as int]) is Err);
                        assert(asked_one_by_one(
                            before,
                            after,
                            features@,
                            Err::<Vec<M::Value>, ModelError>(e),
                        ));
                    }
                    return Err(e);
                },
            }
            k += 1;
        }
        proof {
            let after = self.entries()[i as int].model;
            assert(after.stats() == after_asking(before.stats(), k, false, latency_us));
            assert(k == features@.len());
            assert(model::batch_answers(
                &before.current(),
                features@,
                Ok::<Vec<M::Value>, ModelError>(answers),
            ));
            assert(after.same_models(&before));
            assert(asked_one_by_one(
                before,
                after,
                features@,
                Ok::<Vec<M::Value>, ModelError>(answers),
            ));
        }
        Ok(answers)
    }

    /// Counts, for the model registered under `name`, one call that asked
    /// its serving copy for `served` predictions and took `elapsed_us`. For
    /// callers that ask the serving copy themselves (see `get_model`).
    pub fn record_prediction(
        &mut self,
        name: &str,
        succeeded: bool,
        served: usize,
        elapsed_us: usize,
    ) -> (outcome: Result<(), ModelError>)
        ensures
            final(self).same_settings(old(self)),
            old(self).wf() ==> final(self).wf(),
            match slot(old(self).entries(), name@) {
                None => {
                    &&& outcome is Err
                    &&& outcome->Err_0@ == not_found(name@)
                    &&& final(self).entries() == old(self).entries()
                },
                Some(i) => {
                    &&& outcome is Ok
                    &&& changed_at(old(self).entries(), final(self).entries(), i)
                    &&& final(self).entries()[i].buffer == old(self).entries()[i].buffer
                    &&& AtomicModel::counted(
                        old(self).entries()[i].model,
                        final(self).entries()[i].model,
                        succeeded,
                        served,
                        elapsed_us,
                    )
                },
            },
    {
        match self.find(name) {
            None => Err(Self::missing(name)),
            Some(i) => {
                self.entries[i].model.record_prediction(succeeded, served, elapsed_us);
                proof {
                    assert(names_of(self.entries()) =~= names_of(old(self).entries()));
                }
                Ok(())
            },
        }
    }

    /// Trains the model registered under `name` on all its buffered
    /// training examples, now, and deals with the trained copy as the
    /// settings say.
    pub fn train_now(&mut self, name: &str) -> (report: Result<
        Option<Promotion<M::Value>>,
        ModelError,
    >)
        ensures
            final(self).same_settings(old(self)),
            old(self).wf() ==> final(self).wf(),
            match slot(old(self).entries(), name@) {
                None => {
                    &&& report is Err
                    &&& report->Err_0@ == not_found(name@)
                    &&& final(self).entries() == old(self).entries()
                },
                Some(i) => {
                    &&& changed_at(old(self).entries(), final(self).entries(), i)
                    &&& ModelEntry::trained_now(
                        old(self).entries()[i],
                        final(self).entries()[i],
                        old(self).config().auto_swap,
                        report,
                    )
                },
            },
    {
        match self.find(name) {
            None => Err(Self::missing(name)),
            Some(i) => {
                let auto_swap = self.config.auto_swap;
                let report = self.entries[i].train_now(auto_swap);
                proof {
                    assert(names_of(self.entries()) =~= names_of(old(self).entries()));
                }
                report
            },
        }
    }

    /// Starts continuous learning, and says whether the caller has to set a
    /// cycle going: that is so where learning is enabled and was not running
    /// yet. Where it is disabled nothing changes.
    pub fn start_continuous_learning(&mut self) -> (start: Result<bool, ModelError>)
        ensures
            start == Ok::<bool, ModelError>(old(self).config().enabled && !old(self).running()),
            final(self).running() == (old(self).running() || old(self).config().enabled),
            final(self).config() == old(self).config(),
            final(self).entries() == old(self).entries(),
    {
        if !self.config.enabled {
            return Ok(false);
        }
        if self.running {
            return Ok(false);
        }
        self.running = true;
        Ok(true)
    }

    /// Stops continuous learning: the cycle that runs is the last.
    pub fn stop_continuous_learning(&mut self)
        ensures
            !final(self).running(),
            final(self).config() == old(self).config(),
            final(self).entries() == old(self).entries(),
    {
        self.running = false;
    }

    /// Whether continuous learning has been started and not stopped.
    pub fn is_running(&self) -> (running: bool)
        ensures
            running == self.running(),
    {
        self.running
    }

    /// One cycle of continuous learning: every registered model, in the
    /// order of registration, gets its turn (`ModelEntry::learn`), and what
    /// happens to one has no bearing on another.
    pub fn run_learning_cycle(&mut self) -> (reports: Vec<LearningReport<M::Value>>)
        ensures
            final(self).same_settings(old(self)),
            old(self).wf() ==> final(self).wf(),
            names_of(final(self).entries()) == names_of(old(self).entries()),
            reports@.len() == old(self).entries().len(),
            forall|i: int|
                0 <= i < reports@.len() ==> {
                    &&& (#[trigger] reports@[i]).name@ == old(self).entries()[i].name@
                    &&& ModelEntry::learned(
                        old(self).entries()[i],
                        final(self).entries()[i],
                        old(self).config(),
                        reports@[i].outcome,
                    )
                },
    {
        let config = self.config;
        let mut reports: Vec<LearningReport<M::Value>> = Vec::with_capacity(self.entries.len());
        let mut i: usize = 0;
        while i < self.entries.len()
            invariant
                i <= self.entries.len(),
                self.same_settings(old(self)),
                config == old(self).config(),
                self.entries().len() == old(self).entries().len(),
                reports@.len() == i,
                names_of(self.entries()) == names_of(old(self).entries()),
                forall|k: int|
                    i <= k < self.entries().len() ==> #[trigger] self.entries()[k] == old(
                        self,
                    ).entries()[k],
                forall|k: int|
                    0 <= k < i ==> {
                        &&& (#[trigger] reports@[k]).name@ == old(self).entries()[k].name@
                        &&& ModelEntry::learned(
                            old(self).entries()[k],
                            self.entries()[k],
                            config,
                            reports@[k].outcome,
                        )
                    },
                old(self).wf() ==> forall|k: int|
                    0 <= k < self.entries().len() ==> {
                        &&& (#[trigger] self.entries()[k]).model.wf()
                        &&& self.entries()[k].buffer.wf()
                    },
            decreases self.entries.len() - i,
        {
            let ghost listed = names_of(self.entries());
            let name = self.entries[i].name.clone();
            let outcome = self.entries[i].learn(&config);
            reports.push(LearningReport { name, outcome });
            assert(names_of(self.entries()) =~= listed);
            i += 1;
        }
        reports
    }

    /// Begins the turn of the model registered under `name` in a cycle of
    /// continuous learning (`ModelEntry::begin_learning`).
    pub fn begin_learning(&mut self, name: &str) -> (start: Result<LearningStart<M>, ModelError>)
        ensures
            final(self).same_settings(old(self)),
            old(self).wf() ==> final(self).wf(),
            match slot(old(self).entries(), name@) {
                None => {
                    &&& start is Err
                    &&& start->Err_0@ == not_found(name@)
                    &&& final(self).entries() == old(self).entries()
                },
                Some(i) => {
                    &&& start is Ok
                    &&& changed_at(old(self).entries(), final(self).entries(), i)
                    &&& ModelEntry::began_learning(
                        old(self).entries()[i],
                        final(self).entries()[i],
                        old(self).config(),
                        start->Ok_0,
                    )
                },
            },
    {
        match self.find(name) {
            None => Err(Self::missing(name)),
            Some(i) => {
                let config = self.config;
                let start = self.entries[i].begin_learning(&config);
                proof {
                    assert(names_of(self.entries()) =~= names_of(old(self).entries()));
                }
                Ok(start)
            },
        }
    }

    /// Ends the round of the model registered under `name`
    /// (`ModelEntry::finish_learning`). A model that was unregistered
    /// meanwhile is not found, and the round is dropped.
    pub fn finish_learning(
        &mut self,
        name: &str,
        trained: M,
        round: Result<(), ModelError>,
        elapsed_us: usize,
        now_secs: u64,
    ) -> (outcome: Result<LearningOutcome<M::Value>, ModelError>)
        ensures
            final(self).same_settings(old(self)),
            old(self).wf() ==> final(self).wf(),
            match slot(old(self).entries(), name@) {
                None => {
                    &&& outcome is Err
                    &&& outcome->Err_0@ == not_found(name@)
                    &&& final(self).entries() == old(self).entries()
                },
                Some(i) => {
                    &&& outcome is Ok
                    &&& changed_at(old(self).entries(), final(self).entries(), i)
                    &&& ModelEntry::finished_learning(
                        old(self).entries()[i],
                        final(self).entries()[i],
                        trained,
                        round,
                        elapsed_us,
                        now_secs,
                        old(self).config().auto_swap,
                        outcome->Ok_0,
                    )
                },
            },
    {
        match self.find(name) {
            None => Err(Self::missing(name)),
            Some(i) => {
                let auto_swap = self.config.auto_swap;
                let outcome = self.entries[i].finish_learning(
                    trained,
                    round,
                    elapsed_us,
                    now_secs,
                    auto_swap,
                );
                proof {
                    assert(names_of(self.entries()) =~= names_of(old(self).entries()));
                }
                Ok(outcome)
            },
        }
    }
}

} // verus!
