//! The settings of continuous learning and the buffer of examples that
//! wait for the next training round.

use crate::clock::elapsed_or_zero;
use std::time::Duration;
use std::time::SystemTime;
use vstd::prelude::*;

verus! {

/// Settings of the retrain-validate-swap cycle.
#[derive(Debug, Clone, Copy)]
pub struct ContinuousLearningConfig {
    /// Whether the cycle runs at all.
    pub enabled: bool,
    /// Seconds between two cycles.
    pub interval_sec: u64,
    /// Buffered training examples that a model needs before it is retrained.
    pub min_samples: usize,
    /// Whether a retrained model is promoted without being asked for.
    pub auto_swap: bool,
    /// The fractional improvement of the validation error that a retrained
    /// model is expected to bring, as the bit pattern of an IEEE 754
    /// single-precision number. The library stores and hands it on; it never
    /// computes with it.
    pub validation_threshold_bits: u32,
    /// Advisory: whether a divergence-based comparison is preferred.
    pub use_kl_divergence: bool,
}

/// The bit pattern of the single-precision number nearest to five percent.
pub const FIVE_PERCENT_BITS: u32 = 0x3d4c_cccd;

/// The bit pattern of the single-precision number nearest to one percent.
pub const ONE_PERCENT_BITS: u32 = 0x3c23_d70a;

impl ContinuousLearningConfig {
    /// The settings with every value given.
    pub fn new(
        enabled: bool,
        interval_sec: u64,
        min_samples: usize,
        auto_swap: bool,
        validation_threshold_bits: u32,
        use_kl_divergence: bool,
    ) -> (config: Self)
        ensures
            config == (ContinuousLearningConfig {
                enabled,
                interval_sec,
                min_samples,
                auto_swap,
                validation_threshold_bits,
                use_kl_divergence,
            }),
    {
        ContinuousLearningConfig {
            enabled,
            interval_sec,
            min_samples,
            auto_swap,
            validation_threshold_bits,
            use_kl_divergence,
        }
    }

    /// The usual settings: a cycle every minute, a hundred examples, automatic
    /// promotion, five percent improvement expected.
    pub open spec fn usual() -> Self {
        ContinuousLearningConfig {
            enabled: true,
            interval_sec: 60,
            min_samples: 100,
            auto_swap: true,
            validation_threshold_bits: FIVE_PERCENT_BITS,
            use_kl_divergence: false,
        }
    }

    /// The usual settings with the cycle switched off.
    pub fn disabled() -> (config: Self)
        ensures
            config == (ContinuousLearningConfig { enabled: false, ..Self::usual() }),
    {
        ContinuousLearningConfig {
            enabled: false,
            interval_sec: 60,
            min_samples: 100,
            auto_swap: true,
            validation_threshold_bits: FIVE_PERCENT_BITS,
            use_kl_divergence: false,
        }
    }

    /// Settings for frequent updates: a cycle every ten seconds, ten
    /// examples, one percent improvement expected.
    pub fn frequent_updates() -> (config: Self)
        ensures
            config == (ContinuousLearningConfig {
                interval_sec: 10,
                min_samples: 10,
                validation_threshold_bits: ONE_PERCENT_BITS,
                ..Self::usual()
            }),
    {
        ContinuousLearningConfig {
            enabled: true,
            interval_sec: 10,
            min_samples: 10,
            auto_swap: true,
            validation_threshold_bits: ONE_PERCENT_BITS,
            use_kl_divergence: false,
        }
    }
}

impl Default for ContinuousLearningConfig {
    fn default() -> (config: Self)
        ensures
            config == Self::usual(),
    {
        ContinuousLearningConfig {
            enabled: true,
            interval_sec: 60,
            min_samples: 100,
            auto_swap: true,
            validation_threshold_bits: FIVE_PERCENT_BITS,
            use_kl_divergence: false,
        }
    }
}

/// Whether a sequence of `len` items is longer than `max_size` allows.
pub open spec fn over_limit(len: nat, max_size: Option<usize>) -> bool {
    match max_size {
        Some(limit) => len > limit,
        None => false,
    }
}

/// `items` without its oldest entry where `evict` holds, else `items`.
pub open spec fn without_oldest<A>(items: Seq<A>, evict: bool) -> Seq<A> {
    if evict && items.len() > 0 {
        items.subrange(1, items.len() as int)
    } else {
        items
    }
}

/// What a bounded sequence holds after `item` was appended: the oldest
/// entry leaves where the sequence would else exceed `max_size`.
pub open spec fn appended<A>(items: Seq<A>, item: A, max_size: Option<usize>) -> Seq<A> {
    without_oldest(items.push(item), over_limit(items.len() + 1, max_size))
}

/// What a bounded sequence that starts empty holds after each of `items`
/// was appended in order.
pub open spec fn filled<A>(items: Seq<A>, max_size: Option<usize>) -> Seq<A>
    decreases items.len(),
{
    if items.len() == 0 {
        Seq::empty()
    } else {
        appended(filled(items.drop_last(), max_size), items.last(), max_size)
    }
}

/// The `count` newest of `items` in their order, and all of them where
/// there are no more than `count`.
pub open spec fn newest<A>(items: Seq<A>, count: nat) -> Seq<A> {
    if items.len() <= count {
        items
    } else {
        items.subrange(items.len() - count, items.len() as int)
    }
}

/// A bounded sequence holds the newest of what was appended to it: after
/// more than `limit` items exactly `limit` of them, the most recent ones, in
/// the order in which they came.
pub proof fn lemma_filled_keeps_newest<A>(items: Seq<A>, limit: usize)
    ensures
        filled(items, Some(limit)) == newest(items, limit as nat),
        items.len() > limit ==> filled(items, Some(limit)).len() == limit,
    decreases items.len(),
{
    if items.len() > 0 {
        let earlier = items.drop_last();
        lemma_filled_keeps_newest(earlier, limit);
        let before = newest(earlier, limit as nat);
        let after = appended(before, items.last(), Some(limit));
        assert(after =~= newest(items, limit as nat));
    } else {
        assert(filled(items, Some(limit)) =~= newest(items, limit as nat));
    }
}

/// Without a limit a sequence holds everything that was appended to it.
pub proof fn lemma_filled_unbounded<A>(items: Seq<A>)
    ensures
        filled(items, None) == items,
    decreases items.len(),
{
    if items.len() > 0 {
        lemma_filled_unbounded(items.drop_last());
        assert(items.drop_last().push(items.last()) =~= items);
    } else {
        assert(filled(items, None) =~= items);
    }
}

/// A validation example never counts toward the examples that a training
/// round waits for: whatever is added to the validation side, the training
/// side holds `min_samples` examples after it exactly if it did before.
pub proof fn lemma_validation_examples_do_not_count<F, T>(
    before: TrainingBuffer<F, T>,
    after: TrainingBuffer<F, T>,
    feature: F,
    target: T,
    min_samples: usize,
)
    requires
        TrainingBuffer::added(before, after, feature, target, true),
    ensures
        after.features@ == before.features@,
        after.targets@ == before.targets@,
        (after.features@.len() >= min_samples) == (before.features@.len() >= min_samples),
{
}

/// In a buffer that is in order, `add` treats features and targets alike:
/// each of the two sequences of the side that was added to is the bounded
/// sequence after one more item, so the pairs stay pairs. With
/// `lemma_filled_keeps_newest`: a side that is filled from empty by `add`
/// holds the newest examples, features and targets both, in the order in
/// which they came.
pub proof fn lemma_added_appends_both<F, T>(
    before: TrainingBuffer<F, T>,
    after: TrainingBuffer<F, T>,
    feature: F,
    target: T,
    is_validation: bool,
)
    requires
        before.wf(),
        TrainingBuffer::added(before, after, feature, target, is_validation),
    ensures
        after.wf(),
        is_validation ==> {
            &&& after.val_features@ == appended(before.val_features@, feature, before.max_size)
            &&& after.val_targets@ == appended(before.val_targets@, target, before.max_size)
        },
        !is_validation ==> {
            &&& after.features@ == appended(before.features@, feature, before.max_size)
            &&& after.targets@ == appended(before.targets@, target, before.max_size)
        },
{
}

/// Examples that wait for the next training round, and the validation
/// examples beside them. Each side is two parallel sequences, features and
/// targets; with a limit, each side keeps the newest examples only.
#[derive(Debug)]
pub struct TrainingBuffer<F, T> {
    /// Features of the training examples, oldest first.
    pub features: Vec<F>,
    /// Targets of the training examples, oldest first.
    pub targets: Vec<T>,
    /// Features of the validation examples, oldest first.
    pub val_features: Vec<F>,
    /// Targets of the validation examples, oldest first.
    pub val_targets: Vec<T>,
    /// When the training side was last cleared.
    pub last_trained: SystemTime,
    /// The most examples that either side keeps, if there is a limit.
    pub max_size: Option<usize>,
}

impl<F, T> TrainingBuffer<F, T> {
    /// The invariant of the buffer: on each side features and targets pair
    /// up, and neither side exceeds the limit. Every buffer starts with it
    /// and every operation keeps it.
    pub open spec fn wf(&self) -> bool {
        &&& self.features@.len() == self.targets@.len()
        &&& self.val_features@.len() == self.val_targets@.len()
        &&& !over_limit(self.features@.len(), self.max_size)
        &&& !over_limit(self.val_features@.len(), self.max_size)
    }

    /// Whether the buffer holds no example at all.
    pub open spec fn is_empty(&self) -> bool {
        &&& self.features@.len() == 0
        &&& self.targets@.len() == 0
        &&& self.val_features@.len() == 0
        &&& self.val_targets@.len() == 0
    }

    /// Whether the training side is that of `before`.
    pub open spec fn same_training(&self, before: &Self) -> bool {
        &&& self.features == before.features
        &&& self.targets == before.targets
    }

    /// Whether the validation side is that of `before`.
    pub open spec fn same_validation(&self, before: &Self) -> bool {
        &&& self.val_features == before.val_features
        &&& self.val_targets == before.val_targets
    }

    /// Whether `after` is `before` after `add` of one example: it stands at
    /// the end of its side, that side's oldest example has left where the
    /// side would else exceed the limit, and the other side is as it was.
    pub open spec fn added(
        before: Self,
        after: Self,
        feature: F,
        target: T,
        is_validation: bool,
    ) -> bool {
        &&& after.max_size == before.max_size
        &&& after.last_trained == before.last_trained
        &&& if is_validation {
            &&& after.same_training(&before)
            &&& after.val_features@ == appended(before.val_features@, feature, before.max_size)
            &&& after.val_targets@ == without_oldest(
                before.val_targets@.push(target),
                over_limit(before.val_features@.len() + 1, before.max_size),
            )
        } else {
            &&& after.same_validation(&before)
            &&& after.features@ == appended(before.features@, feature, before.max_size)
            &&& after.targets@ == without_oldest(
                before.targets@.push(target),
                over_limit(before.features@.len() + 1, before.max_size),
            )
        }
    }

    /// Whether `after` is `before` with the training side emptied: the
    /// validation side and the limit are as they were.
    pub open spec fn cleared_training(before: Self, after: Self) -> bool {
        &&& after.features@.len() == 0
        &&& after.targets@.len() == 0
        &&& after.same_validation(&before)
        &&& after.max_size == before.max_size
    }

    /// An empty buffer with the given limit, last cleared at `now`.
    pub fn starting_at(max_size: Option<usize>, now: SystemTime) -> (buffer: Self)
        ensures
            buffer.is_empty(),
            buffer.max_size == max_size,
            buffer.last_trained == now,
            buffer.wf(),
    {
        TrainingBuffer {
            features: Vec::new(),
            targets: Vec::new(),
            val_features: Vec::new(),
            val_targets: Vec::new(),
            last_trained: now,
            max_size,
        }
    }

    /// An empty buffer without a limit.
    pub fn new() -> (buffer: Self)
        ensures
            buffer.is_empty(),
            buffer.max_size is None,
            buffer.wf(),
    {
        TrainingBuffer::starting_at(None, SystemTime::now())
    }

    /// An empty buffer that keeps at most `max_size` examples on each side.
    pub fn with_max_size(max_size: usize) -> (buffer: Self)
        ensures
            buffer.is_empty(),
            buffer.max_size == Some(max_size),
            buffer.wf(),
    {
        TrainingBuffer::starting_at(Some(max_size), SystemTime::now())
    }

    /// Appends an example to the validation side (`is_validation`) or to the
    /// training side. Where that side then exceeds the limit, its oldest
    /// example leaves. The other side is not touched.
    pub fn add(&mut self, feature: F, target: T, is_validation: bool)
        ensures
            Self::added(*old(self), *final(self), feature, target, is_validation),
            old(self).wf() ==> final(self).wf(),
    {
        if is_validation {
            self.val_features.push(feature);
            self.val_targets.push(target);
            if let Some(max_size) = self.max_size {
                if self.val_features.len() > max_size {
                    self.val_features.remove(0);
                    self.val_targets.remove(0);
                }
            }
        } else {
            self.features.push(feature);
            self.targets.push(target);
            if let Some(max_size) = self.max_size {
                if self.features.len() > max_size {
                    self.features.remove(0);
                    self.targets.remove(0);
                }
            }
        }
    }

    /// Whether the training side holds at least `min_samples` examples.
    /// Validation examples do not count.
    pub fn has_min_samples(&self, min_samples: usize) -> (enough: bool)
        ensures
            enough == (self.features@.len() >= min_samples),
    {
        self.features.len() >= min_samples
    }

    /// Empties the training side and records `now` as the time of that. The
    /// validation side stays.
    pub fn clear_training_at(&mut self, now: SystemTime)
        ensures
            Self::cleared_training(*old(self), *final(self)),
            final(self).last_trained == now,
            old(self).wf() ==> final(self).wf(),
    {
        self.features.clear();
        self.targets.clear();
        self.last_trained = now;
    }

    /// Empties the training side and records the time. The validation side
    /// stays.
    pub fn clear_training(&mut self)
        ensures
            Self::cleared_training(*old(self), *final(self)),
            old(self).wf() ==> final(self).wf(),
    {
        self.clear_training_at(SystemTime::now());
    }

    /// Empties the validation side. The training side and the time of its
    /// last clearing stay.
    pub fn clear_validation(&mut self)
        ensures
            final(self).val_features@.len() == 0,
            final(self).val_targets@.len() == 0,
            final(self).same_training(old(self)),
            final(self).max_size == old(self).max_size,
            final(self).last_trained == old(self).last_trained,
            old(self).wf() ==> final(self).wf(),
    {
        self.val_features.clear();
        self.val_targets.clear();
    }

    /// Empties both sides and records the time.
    pub fn clear_all(&mut self)
        ensures
            final(self).is_empty(),
            final(self).max_size == old(self).max_size,
            final(self).wf(),
    {
        self.clear_training();
        self.clear_validation();
    }

    /// Hands out the training examples and leaves the training side empty,
    /// with the time recorded. Nothing is handed out twice and nothing is
    /// lost. The validation side stays.
    pub fn take_training(&mut self) -> (examples: (Vec<F>, Vec<T>))
        ensures
            examples.0 == old(self).features,
            examples.1 == old(self).targets,
            Self::cleared_training(*old(self), *final(self)),
            old(self).wf() ==> final(self).wf(),
    {
        let mut features: Vec<F> = Vec::new();
        let mut targets: Vec<T> = Vec::new();
        std::mem::swap(&mut features, &mut self.features);
        std::mem::swap(&mut targets, &mut self.targets);
        self.last_trained = SystemTime::now();
        (features, targets)
    }

    /// The time since the training side was last cleared, by the wall
    /// clock; zero where the clock now reads earlier than it did then.
    pub fn time_since_last_training(&self) -> (elapsed: Duration)
        ensures
            exists|now: SystemTime|
                elapsed == crate::clock::measured_or_zero(
                    #[trigger] crate::clock::time_between(now, self.last_trained),
                ),
    {
        let now = SystemTime::now();
        elapsed_or_zero(now.duration_since(self.last_trained))
    }

    /// How many training and how many validation examples are buffered.
    pub fn get_sizes(&self) -> (sizes: (usize, usize))
        ensures
            sizes.0 == self.features@.len(),
            sizes.1 == self.val_features@.len(),
    {
        (self.features.len(), self.val_features.len())
    }

    /// The training examples: features and targets, oldest first.
    pub fn get_training_data(&self) -> (examples: (&[F], &[T]))
        ensures
            examples.0@ == self.features@,
            examples.1@ == self.targets@,
    {
        (self.features.as_slice(), self.targets.as_slice())
    }

    /// The validation examples: features and targets, oldest first.
    pub fn get_validation_data(&self) -> (examples: (&[F], &[T]))
        ensures
            examples.0@ == self.val_features@,
            examples.1@ == self.val_targets@,
    {
        (self.val_features.as_slice(), self.val_targets.as_slice())
    }
}

impl<F, T> Default for TrainingBuffer<F, T> {
    fn default() -> (buffer: Self)
        ensures
            buffer.is_empty(),
            buffer.max_size is None,
            buffer.wf(),
    {
        TrainingBuffer::new()
    }
}

} // verus!
