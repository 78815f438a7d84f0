//! Counters and timestamps of one served model.

use crate::clock::unix_seconds_now;
use crate::clock::whole_seconds_between;
use crate::text::to_decimal;
use std::time::SystemTime;
use vstd::prelude::*;
use vstd::string::StringExecFns;

verus! {

/// Statistics of one model: how often it predicted and trained, how often
/// that failed, the latest latencies, its version and two timestamps.
#[derive(Debug)]
pub struct ModelStats {
    /// Predictions served.
    pub prediction_count: usize,
    /// Training rounds completed.
    pub training_count: usize,
    /// Predictions that failed.
    pub prediction_errors: usize,
    /// Training rounds that failed.
    pub training_errors: usize,
    /// Latency of the latest prediction, in microseconds.
    pub latest_prediction_latency_us: usize,
    /// Latency of the latest training round, in microseconds.
    pub latest_training_latency_us: usize,
    /// Version of the serving model; it starts at 1.
    pub version: usize,
    /// When the statistics were created.
    pub created_at: SystemTime,
    /// Seconds since the Unix epoch at the latest training round or swap.
    pub last_updated_at: u64,
}

/// The statistics line of the given counters.
pub open spec fn stats_line(
    version: nat,
    predictions: nat,
    training_runs: nat,
    prediction_errors: nat,
    training_errors: nat,
    prediction_latency_us: nat,
    training_latency_us: nat,
) -> Seq<char> {
    "Model v"@ + crate::text::decimal(version) + " | Predictions: "@ + crate::text::decimal(
        predictions,
    ) + " | Training runs: "@ + crate::text::decimal(training_runs) + " | Errors: "@
        + crate::text::decimal(prediction_errors) + "/"@ + crate::text::decimal(training_errors)
        + " | Latency: "@ + crate::text::decimal(prediction_latency_us) + "μs/"@
        + crate::text::decimal(training_latency_us) + "μs"@
}

/// Seconds from `last` to `now`, and zero where `now` is the earlier one.
pub open spec fn seconds_from(last: u64, now: u64) -> u64 {
    if now >= last {
        (now - last) as u64
    } else {
        0
    }
}

impl ModelStats {
    /// Whether nothing has been counted yet: all counters zero, version 1.
    pub open spec fn is_fresh(&self) -> bool {
        &&& self.prediction_count == 0
        &&& self.training_count == 0
        &&& self.prediction_errors == 0
        &&& self.training_errors == 0
        &&& self.latest_prediction_latency_us == 0
        &&& self.latest_training_latency_us == 0
        &&& self.version == 1
    }

    /// Whether `self` and `other` agree on everything but the time of the
    /// latest update.
    pub open spec fn same_counts(&self, other: &ModelStats) -> bool {
        *self == (ModelStats { last_updated_at: self.last_updated_at, ..*other })
    }

    /// The line that `format_stats` returns.
    pub open spec fn line(&self) -> Seq<char> {
        stats_line(
            self.version as nat,
            self.prediction_count as nat,
            self.training_count as nat,
            self.prediction_errors as nat,
            self.training_errors as nat,
            self.latest_prediction_latency_us as nat,
            self.latest_training_latency_us as nat,
        )
    }

    /// Fresh statistics with the given creation time and update time.
    pub fn starting_at(created_at: SystemTime, now_secs: u64) -> (stats: Self)
        ensures
            stats.is_fresh(),
            stats.created_at == created_at,
            stats.last_updated_at == now_secs,
    {
        ModelStats {
            prediction_count: 0,
            training_count: 0,
            prediction_errors: 0,
            training_errors: 0,
            latest_prediction_latency_us: 0,
            latest_training_latency_us: 0,
            version: 1,
            created_at,
            last_updated_at: now_secs,
        }
    }

    /// Fresh statistics, created and updated now.
    pub fn new() -> (stats: Self)
        ensures
            stats.is_fresh(),
    {
        let created_at = SystemTime::now();
        let now_secs = unix_seconds_now();
        ModelStats::starting_at(created_at, now_secs)
    }

    /// Sets the time of the latest update.
    pub fn set_timestamp(&mut self, now_secs: u64)
        ensures
            *final(self) == (ModelStats { last_updated_at: now_secs, ..*old(self) }),
    {
        self.last_updated_at = now_secs;
    }

    /// Sets the time of the latest update to now. Nothing else changes.
    pub fn update_timestamp(&mut self)
        ensures
            final(self).same_counts(old(self)),
    {
        let now_secs = unix_seconds_now();
        self.set_timestamp(now_secs);
    }

    /// The statistics as one line of text.
    pub fn format_stats(&self) -> (line: String)
        ensures
            line@ == self.line(),
    {
        let mut line = String::from_str("Model v");
        line.append(to_decimal(self.version).as_str());
        line.append(" | Predictions: ");
        line.append(to_decimal(self.prediction_count).as_str());
        line.append(" | Training runs: ");
        line.append(to_decimal(self.training_count).as_str());
        line.append(" | Errors: ");
        line.append(to_decimal(self.prediction_errors).as_str());
        line.append("/");
        line.append(to_decimal(self.training_errors).as_str());
        line.append(" | Latency: ");
        line.append(to_decimal(self.latest_prediction_latency_us).as_str());
        line.append("μs/");
        line.append(to_decimal(self.latest_training_latency_us).as_str());
        line.append("μs");
        line
    }

    /// Sets both error counters back to zero.
    pub fn reset_error_counters(&mut self)
        ensures
            *final(self) == (ModelStats { prediction_errors: 0, training_errors: 0, ..*old(self) }),
    {
        self.prediction_errors = 0;
        self.training_errors = 0;
    }

    /// Whole seconds since the statistics were created, by the wall clock;
    /// zero where the clock now reads earlier than it did then.
    pub fn uptime_secs(&self) -> (secs: u64)
        ensures
            exists|now: SystemTime|
                secs == #[trigger] crate::clock::seconds_between(now, self.created_at),
    {
        let now = SystemTime::now();
        whole_seconds_between(&now, self.created_at)
    }

    /// Seconds from the latest update to `now_secs`.
    pub fn seconds_since_update_at(&self, now_secs: u64) -> (secs: u64)
        ensures
            secs == seconds_from(self.last_updated_at, now_secs),
    {
        now_secs.saturating_sub(self.last_updated_at)
    }

    /// Seconds from the latest update to now, by the wall clock.
    pub fn time_since_update_secs(&self) -> (secs: u64)
        ensures
            exists|now_secs: u64| secs == seconds_from(self.last_updated_at, now_secs),
    {
        let now_secs = unix_seconds_now();
        self.seconds_since_update_at(now_secs)
    }
}

impl Default for ModelStats {
    fn default() -> (stats: Self)
        ensures
            stats.is_fresh(),
    {
        ModelStats::new()
    }
}

} // verus!
