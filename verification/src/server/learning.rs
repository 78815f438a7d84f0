//! One registered model and what a round of training does with it: train,
//! validate, promote.

use crate::server::continuous_learning::ContinuousLearningConfig;
use crate::server::continuous_learning::TrainingBuffer;
use crate::server::model_server::AtomicModel;
use crate::traits::model;
use crate::traits::model::Model;
use crate::traits::model::ModelError;
use vstd::prelude::*;

verus! {

/// One registered model: its name, its container and its buffer.
pub struct ModelEntry<M: Model> {
    /// The name the model is registered under.
    pub name: String,
    /// The model in its two copies.
    pub model: AtomicModel<M>,
    /// The examples that wait for the model's next training round.
    pub buffer: TrainingBuffer<M::Feature, M::Value>,
}

/// How a trained model was dealt with.
#[derive(Debug)]
pub enum Promotion<V> {
    /// Promotion was not asked for: the trained copy waits in its slot.
    Kept,
    /// There were no validation examples: the trained copy serves now.
    Promoted { version: usize },
    /// The trained copy serves now. On the validation examples the copy
    /// that served before had `old_error`, the one that serves now has
    /// `new_error`. Whether that is improvement enough is for the caller to
    /// judge; the promotion is not taken back.
    Validated { version: usize, old_error: V, new_error: V },
}

/// What one cycle of continuous learning did for one model.
#[derive(Debug)]
pub enum LearningOutcome<V> {
    /// Too few examples are buffered: nothing was done.
    Waiting,
    /// A training round is in flight: nothing was done.
    Busy,
    /// The round failed. The examples it was given are gone.
    TrainingFailed(ModelError),
    /// The model was trained, and then dealt with as stated.
    Trained(Promotion<V>),
    /// The model was trained, but validating or promoting it failed.
    PromotionFailed(ModelError),
}

/// A training round that waits to be run: a duplicate of the training copy
/// and the examples to fit it to.
pub struct TrainingJob<M: Model> {
    /// The model to train.
    pub model: M,
    /// The features of the examples, oldest first.
    pub features: Vec<M::Feature>,
    /// The targets of the examples, oldest first.
    pub targets: Vec<M::Value>,
}

/// How one model's turn in a cycle begins.
pub enum LearningStart<M: Model> {
    /// The turn is over already, with this outcome.
    Done(LearningOutcome<M::Value>),
    /// The training slot is claimed for this round. Whoever runs it hands
    /// the trained model and the round's outcome to `finish_learning`.
    Round(TrainingJob<M>),
}

/// What one cycle of continuous learning did for the model of one name.
#[derive(Debug)]
pub struct LearningReport<V> {
    /// The name the model is registered under.
    pub name: String,
    /// What was done for it.
    pub outcome: LearningOutcome<V>,
}

impl<M: Model> ModelEntry<M> {
    /// Whether `after` is `before` after the trained copy was dealt with,
    /// with `result`. Without `auto_swap` nothing happens. Without
    /// validation examples the trained copy is promoted. With them the
    /// serving copy is validated, the trained copy promoted, and the copy
    /// that serves then validated; the first of the three that fails ends
    /// it, and what was done before stays done. The buffer is not touched.
    pub open spec fn promoted(
        before: Self,
        after: Self,
        auto_swap: bool,
        result: Result<Promotion<M::Value>, ModelError>,
    ) -> bool {
        let features = before.buffer.val_features@;
        let targets = before.buffer.val_targets@;
        &&& after.name == before.name
        &&& after.buffer == before.buffer
        &&& if !auto_swap {
            &&& after.model == before.model
            &&& result == Ok::<Promotion<M::Value>, ModelError>(Promotion::Kept)
        } else if features.len() == 0 {
            exists|swap: Result<usize, ModelError>|
                {
                    &&& #[trigger] AtomicModel::swapped(before.model, after.model, swap)
                    &&& match swap {
                        Err(e) => result is Err && result->Err_0@ == e@,
                        Ok(version) => result == Ok::<Promotion<M::Value>, ModelError>(
                            Promotion::Promoted { version },
                        ),
                    }
                }
        } else {
            match before.model.current().validates(features, targets) {
                Err(e) => {
                    &&& after.model == before.model
                    &&& result is Err
                    &&& result->Err_0@ == e
                },
                Ok(old_error) => exists|swap: Result<usize, ModelError>|
                    {
                        &&& #[trigger] AtomicModel::swapped(before.model, after.model, swap)
                        &&& match swap {
                            Err(e) => result is Err && result->Err_0@ == e@,
                            Ok(version) => match after.model.current().validates(
                                features,
                                targets,
                            ) {
                                Err(e) => result is Err && result->Err_0@ == e,
                                Ok(new_error) => result == Ok::<Promotion<M::Value>, ModelError>(
                                    Promotion::Validated { version, old_error, new_error },
                                ),
                            },
                        }
                    },
            }
        }
    }

    /// Whether `after` is `before` after `train_now` returned `report`.
    /// With an empty training side nothing happens. Else the model is
    /// trained on all buffered training examples; a round that fails leaves
    /// them where they are, and its error is the report. After a round that
    /// succeeds the training side is empty, and the trained copy is dealt
    /// with as `promoted` says.
    pub open spec fn trained_now(
        before: Self,
        after: Self,
        auto_swap: bool,
        report: Result<Option<Promotion<M::Value>>, ModelError>,
    ) -> bool {
        &&& after.name == before.name
        &&& if before.buffer.features@.len() == 0 {
            &&& after == before
            &&& report == Ok::<Option<Promotion<M::Value>>, ModelError>(None)
        } else {
            exists|trained: Self, outcome: Result<(), ModelError>|
                {
                    &&& trained.name == before.name
                    &&& #[trigger] AtomicModel::trained(
                        before.model,
                        trained.model,
                        before.buffer.features@,
                        before.buffer.targets@,
                        outcome,
                    )
                    &&& match outcome {
                        Err(e) => {
                            &&& trained.buffer == before.buffer
                            &&& after == trained
                            &&& report is Err
                            &&& report->Err_0@ == e@
                        },
                        Ok(()) => {
                            &&& TrainingBuffer::cleared_training(before.buffer, trained.buffer)
                            &&& exists|result: Result<Promotion<M::Value>, ModelError>|
                                {
                                    &&& #[trigger] Self::promoted(
                                        trained,
                                        after,
                                        auto_swap,
                                        result,
                                    )
                                    &&& match result {
                                        Err(e) => report is Err && report->Err_0@ == e@,
                                        Ok(promotion) => report == Ok::<
                                            Option<Promotion<M::Value>>,
                                            ModelError,
                                        >(Some(promotion)),
                                    }
                                }
                        },
                    }
                }
        }
    }

    /// Whether `after` is `before` after one cycle of continuous learning
    /// with the given settings had `outcome`. A model with fewer than
    /// `min_samples` training examples, or with a round in flight, is left
    /// alone. Else its training examples are taken out of the buffer and the
    /// model is trained on them; after a round that succeeds the trained
    /// copy is dealt with as `promoted` says. No error leaves the entry.
    pub open spec fn learned(
        before: Self,
        after: Self,
        config: ContinuousLearningConfig,
        outcome: LearningOutcome<M::Value>,
    ) -> bool {
        &&& after.name == before.name
        &&& if before.buffer.features@.len() < config.min_samples {
            &&& after == before
            &&& outcome == LearningOutcome::<M::Value>::Waiting
        } else if before.model.training_in_progress() {
            &&& after == before
            &&& outcome == LearningOutcome::<M::Value>::Busy
        } else {
            exists|trained: Self, round: Result<(), ModelError>|
                {
                    &&& trained.name == before.name
                    &&& TrainingBuffer::cleared_training(before.buffer, trained.buffer)
                    &&& #[trigger] AtomicModel::trained(
                        before.model,
                        trained.model,
                        before.buffer.features@,
                        before.buffer.targets@,
                        round,
                    )
                    &&& match round {
                        Err(e) => {
                            &&& after == trained
                            &&& outcome matches LearningOutcome::TrainingFailed(reported)
                            &&& reported@ == e@
                        },
                        Ok(()) => exists|result: Result<Promotion<M::Value>, ModelError>|
                            {
                                &&& #[trigger] Self::promoted(
                                    trained,
                                    after,
                                    config.auto_swap,
                                    result,
                                )
                                &&& match result {
                                    Err(e) => {
                                        &&& outcome matches LearningOutcome::PromotionFailed(
                                            reported,
                                        )
                                        &&& reported@ == e@
                                    },
                                    Ok(promotion) => outcome == LearningOutcome::Trained(
                                        promotion,
                                    ),
                                }
                            },
                    }
                }
        }
    }

    /// Whether `after` is `before` after a turn in a cycle began with
    /// `start`. A model with fewer than `min_samples` training examples, or
    /// with a round in flight, is left alone and the turn is over. Else the
    /// training examples are taken out of the buffer and the training slot
    /// is claimed for them: where the claim is refused the turn is over and
    /// the examples are gone, else they go into the round with a duplicate
    /// of the training copy.
    pub open spec fn began_learning(
        before: Self,
        after: Self,
        config: ContinuousLearningConfig,
        start: LearningStart<M>,
    ) -> bool {
        &&& after.name == before.name
        &&& if before.buffer.features@.len() < config.min_samples {
            &&& after == before
            &&& start matches LearningStart::Done(LearningOutcome::Waiting)
        } else if before.model.training_in_progress() {
            &&& after == before
            &&& start matches LearningStart::Done(LearningOutcome::Busy)
        } else {
            &&& TrainingBuffer::cleared_training(before.buffer, after.buffer)
            &&& exists|claim: Result<(), ModelError>|
                {
                    &&& #[trigger] AtomicModel::claimed(
                        before.model,
                        after.model,
                        before.buffer.features@.len(),
                        before.buffer.targets@.len(),
                        claim,
                    )
                    &&& match claim {
                        Err(e) => {
                            &&& start matches LearningStart::Done(
                                LearningOutcome::TrainingFailed(reported),
                            )
                            &&& reported@ == e@
                        },
                        Ok(()) => {
                            &&& start matches LearningStart::Round(job)
                            &&& job.features == before.buffer.features
                            &&& job.targets == before.buffer.targets
                            &&& model::same_answers(&before.model.training(), &job.model)
                        },
                    }
                }
        }
    }

    /// Whether `after` is `before` after a round that was begun with
    /// `begin_learning` ended with `round`, having taken `elapsed_us` until
    /// `now_secs`, and left the model `trained`: that model stands in the
    /// training slot, the round is counted and the slot released, and after
    /// a round that succeeded the trained copy is dealt with as `promoted`
    /// says. No error leaves the entry.
    pub open spec fn finished_learning(
        before: Self,
        after: Self,
        trained: M,
        round: Result<(), ModelError>,
        elapsed_us: usize,
        now_secs: u64,
        auto_swap: bool,
        outcome: LearningOutcome<M::Value>,
    ) -> bool {
        exists|installed: AtomicModel<M>, released: Self|
            {
                &&& released.name == before.name
                &&& released.buffer == before.buffer
                &&& AtomicModel::installed(before.model, installed, trained)
                &&& #[trigger] AtomicModel::released(
                    installed,
                    released.model,
                    round,
                    elapsed_us,
                    now_secs,
                )
                &&& match round {
                    Err(e) => {
                        &&& after == released
                        &&& outcome matches LearningOutcome::TrainingFailed(reported)
                        &&& reported@ == e@
                    },
                    Ok(()) => exists|result: Result<Promotion<M::Value>, ModelError>|
                        {
                            &&& #[trigger] Self::promoted(released, after, auto_swap, result)
                            &&& match result {
                                Err(e) => {
                                    &&& outcome matches LearningOutcome::PromotionFailed(reported)
                                    &&& reported@ == e@
                                },
                                Ok(promotion) => outcome == LearningOutcome::Trained(promotion),
                            }
                        },
                }
            }
    }

    /// Deals with the trained copy as `auto_swap` and the validation
    /// examples say.
    pub fn promote(&mut self, auto_swap: bool) -> (result: Result<
        Promotion<M::Value>,
        ModelError,
    >)
        ensures
            Self::promoted(*old(self), *final(self), auto_swap, result),
            old(self).model.wf() ==> final(self).model.wf(),
    {
        if !auto_swap {
            return Ok(Promotion::Kept);
        }
        if self.buffer.val_features.len() == 0 {
            let swap = self.model.swap_models();
            return match swap {
                Err(e) => Err(e),
                Ok(version) => Ok(Promotion::Promoted { version }),
            };
        }
        let old_error = match self.model.validate(
            self.buffer.val_features.as_slice(),
            self.buffer.val_targets.as_slice(),
        ) {
            Ok(error) => error,
            Err(e) => {
                return Err(e);
            },
        };
        let swap = self.model.swap_models();
        let version = match swap {
            Ok(version) => version,
            Err(e) => {
                return Err(e);
            },
        };
        let new_error = match self.model.validate(
            self.buffer.val_features.as_slice(),
            self.buffer.val_targets.as_slice(),
        ) {
            Ok(error) => error,
            Err(e) => {
                return Err(e);
            },
        };
        Ok(Promotion::Validated { version, old_error, new_error })
    }

    /// Trains the model on all buffered training examples, now, and deals
    /// with the trained copy.
    pub fn train_now(&mut self, auto_swap: bool) -> (report: Result<
        Option<Promotion<M::Value>>,
        ModelError,
    >)
        ensures
            Self::trained_now(*old(self), *final(self), auto_swap, report),
            old(self).model.wf() ==> final(self).model.wf(),
            old(self).buffer.wf() ==> final(self).buffer.wf(),
    {
        if self.buffer.features.len() == 0 {
            return Ok(None);
        }
        let round = self.model.train(self.buffer.features.as_slice(), self.buffer.targets.as_slice());
        match round {
            Err(e) => {
                assert(Self::trained_now(*old(self), *self, auto_swap, Err(e))) by {
                    assert(AtomicModel::trained(
                        old(self).model,
                        self.model,
                        old(self).buffer.features@,
                        old(self).buffer.targets@,
                        round,
                    ));
                }
                return Err(e);
            },
            Ok(()) => {},
        }
        self.buffer.clear_training();
        let ghost trained = *self;
        let result = self.promote(auto_swap);
        let report = match result {
            Err(e) => Err(e),
            Ok(promotion) => Ok(Some(promotion)),
        };
        proof {
            assert(AtomicModel::trained(
                old(self).model,
                trained.model,
                old(self).buffer.features@,
                old(self).buffer.targets@,
                round,
            ));
            assert(Self::promoted(trained, *self, auto_swap, result));
        }
        report
    }

    /// One cycle of continuous learning for this model.
    pub fn learn(&mut self, config: &ContinuousLearningConfig) -> (outcome: LearningOutcome<
        M::Value,
    >)
        ensures
            Self::learned(*old(self), *final(self), *config, outcome),
            old(self).model.wf() ==> final(self).model.wf(),
            old(self).buffer.wf() ==> final(self).buffer.wf(),
    {
        if !self.buffer.has_min_samples(config.min_samples) {
            return LearningOutcome::Waiting;
        }
        if self.model.is_training() {
            return LearningOutcome::Busy;
        }
        let (features, targets) = self.buffer.take_training();
        let round = self.model.train(features.as_slice(), targets.as_slice());
        let ghost trained = *self;
        proof {
            assert(AtomicModel::trained(
                old(self).model,
                trained.model,
                old(self).buffer.features@,
                old(self).buffer.targets@,
                round,
            ));
        }
        match round {
            Err(e) => {
                return LearningOutcome::TrainingFailed(e);
            },
            Ok(()) => {},
        }
        let result = self.promote(config.auto_swap);
        proof {
            assert(Self::promoted(trained, *self, config.auto_swap, result));
        }
        match result {
            Err(e) => LearningOutcome::PromotionFailed(e),
            Ok(promotion) => LearningOutcome::Trained(promotion),
        }
    }

    /// Begins this model's turn in a cycle of continuous learning, for a
    /// caller that runs the training round itself while the model goes on
    /// serving.
    pub fn begin_learning(&mut self, config: &ContinuousLearningConfig) -> (start: LearningStart<M>)
        ensures
            Self::began_learning(*old(self), *final(self), *config, start),
            old(self).model.wf() ==> final(self).model.wf(),
            old(self).buffer.wf() ==> final(self).buffer.wf(),
    {
        if !self.buffer.has_min_samples(config.min_samples) {
            return LearningStart::Done(LearningOutcome::Waiting);
        }
        if self.model.is_training() {
            return LearningStart::Done(LearningOutcome::Busy);
        }
        let (features, targets) = self.buffer.take_training();
        let claim = self.model.begin_training(features.len(), targets.len());
        proof {
            assert(AtomicModel::claimed(
                old(self).model,
                self.model,
                old(self).buffer.features@.len(),
                old(self).buffer.targets@.len(),
                claim,
            ));
        }
        match claim {
            Err(e) => LearningStart::Done(LearningOutcome::TrainingFailed(e)),
            Ok(()) => {
                let model = self.model.training_copy();
                LearningStart::Round(TrainingJob { model, features, targets })
            },
        }
    }

    /// Ends a round that was begun with `begin_learning`, and deals with the
    /// trained copy.
    pub fn finish_learning(
        &mut self,
        trained: M,
        round: Result<(), ModelError>,
        elapsed_us: usize,
        now_secs: u64,
        auto_swap: bool,
    ) -> (outcome: LearningOutcome<M::Value>)
        ensures
            Self::finished_learning(
                *old(self),
                *final(self),
                trained,
                round,
                elapsed_us,
                now_secs,
                auto_swap,
                outcome,
            ),
            old(self).model.wf() ==> final(self).model.wf(),
            old(self).buffer.wf() ==> final(self).buffer.wf(),
    {
        self.model.install_training(trained);
        let ghost installed = self.model;
        let ended = self.model.finish_training(round, elapsed_us, now_secs);
        let ghost released = *self;
        proof {
            assert(AtomicModel::released(installed, released.model, round, elapsed_us, now_secs));
        }
        match ended {
            Err(e) => {
                return LearningOutcome::TrainingFailed(e);
            },
            Ok(()) => {},
        }
        let result = self.promote(auto_swap);
        proof {
            assert(Self::promoted(released, *self, auto_swap, result));
        }
        match result {
            Err(e) => LearningOutcome::PromotionFailed(e),
            Ok(promotion) => LearningOutcome::Trained(promotion),
        }
    }
}

impl<M: Model> ModelEntry<M> {
    /// Dealing with a trained copy never lowers the version, leaves the
    /// training copy as it is, and changes the serving copy only by
    /// promoting.
    pub proof fn lemma_promotion_raises_version(
        before: Self,
        after: Self,
        auto_swap: bool,
        result: Result<Promotion<M::Value>, ModelError>,
    )
        requires
            Self::promoted(before, after, auto_swap, result),
        ensures
            after.model.stats().version >= before.model.stats().version,
            after.model.training() == before.model.training(),
            result matches Ok(Promotion::Kept) ==> after.model == before.model,
            result matches Ok(Promotion::Promoted { version }) ==> {
                &&& version == after.model.stats().version
                &&& after.model.in_sync()
                &&& model::same_answers(&after.model.training(), &after.model.current())
            },
            result matches Ok(Promotion::Validated { version, old_error, new_error }) ==> {
                &&& version == after.model.stats().version
                &&& after.model.in_sync()
                &&& model::same_answers(&after.model.training(), &after.model.current())
                &&& before.model.current().validates(
                    before.buffer.val_features@,
                    before.buffer.val_targets@,
                ) == Ok::<M::Value, crate::traits::model::ModelErrorView>(old_error)
                &&& after.model.current().validates(
                    before.buffer.val_features@,
                    before.buffer.val_targets@,
                ) == Ok::<M::Value, crate::traits::model::ModelErrorView>(new_error)
            },
    {
    }

    /// One model's turn in a cycle never lowers its version and leaves no
    /// round in flight behind. Where no promotion is reported, the copy that
    /// served before the turn serves after it: a model that waits, is busy
    /// or fails to train answers as it did.
    pub proof fn lemma_learning_serves_until_promoted(
        before: Self,
        after: Self,
        config: ContinuousLearningConfig,
        outcome: LearningOutcome<M::Value>,
    )
        requires
            Self::learned(before, after, config, outcome),
        ensures
            after.model.stats().version >= before.model.stats().version,
            after.model.training_in_progress() == before.model.training_in_progress(),
            (outcome is Waiting || outcome is Busy || outcome is TrainingFailed || outcome
                == LearningOutcome::<M::Value>::Trained(Promotion::Kept)) ==> {
                &&& after.model.current() == before.model.current()
                &&& after.model.stats().version == before.model.stats().version
            },
    {
        if before.buffer.features@.len() >= config.min_samples
            && !before.model.training_in_progress() {
            let (trained, round) = choose|trained: Self, round: Result<(), ModelError>|
                {
                    &&& trained.name == before.name
                    &&& TrainingBuffer::cleared_training(before.buffer, trained.buffer)
                    &&& #[trigger] AtomicModel::trained(
                        before.model,
                        trained.model,
                        before.buffer.features@,
                        before.buffer.targets@,
                        round,
                    )
                    &&& match round {
                        Err(e) => {
                            &&& after == trained
                            &&& outcome matches LearningOutcome::TrainingFailed(reported)
                            &&& reported@ == e@
                        },
                        Ok(()) => exists|result: Result<Promotion<M::Value>, ModelError>|
                            {
                                &&& #[trigger] Self::promoted(
                                    trained,
                                    after,
                                    config.auto_swap,
                                    result,
                                )
                                &&& match result {
                                    Err(e) => {
                                        &&& outcome matches LearningOutcome::PromotionFailed(
                                            reported,
                                        )
                                        &&& reported@ == e@
                                    },
                                    Ok(promotion) => outcome == LearningOutcome::Trained(
                                        promotion,
                                    ),
                                }
                            },
                    }
                };
            if round is Ok {
                let result = choose|result: Result<Promotion<M::Value>, ModelError>|
                    {
                        &&& #[trigger] Self::promoted(trained, after, config.auto_swap, result)
                        &&& match result {
                            Err(e) => {
                                &&& outcome matches LearningOutcome::PromotionFailed(reported)
                                &&& reported@ == e@
                            },
                            Ok(promotion) => outcome == LearningOutcome::Trained(promotion),
                        }
                    };
                Self::lemma_promotion_raises_version(trained, after, config.auto_swap, result);
            }
        }
    }
}

} // verus!
