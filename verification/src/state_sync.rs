//! Keeps a local state machine and the control plane in step: every accepted
//! transition becomes an event that is reported with bounded retries.
//!
//! The report itself and the wait between two attempts are the caller's
//! work. This module decides: it commits the transition locally, hands out
//! the event, and says after each attempt whether to stop, to wait and try
//! again, or to give up, keeping the metrics as it goes.

use vstd::prelude::*;
use vstd::laws_eq::obeys_concrete_eq;
use std::collections::HashMap;
use crate::capture_error::{
    CaptureError, CaptureErrorKind, CaptureErrorView, ConfigErrorKind, RuntimeErrorKind,
    empty_context,
};
use crate::state_machine::{
    MachineView, StateMachine, StateTransition, TransitionView, bump, fold_average,
    folded_average, invalid_transition, invalid_value,
};
use crate::time::{Duration, Timestamp, NANOS_PER_SEC};

verus! {

/// What a `StateChangeEvent` holds, as plain values.
pub struct EventView<S> {
    pub timestamp: Timestamp,
    pub entity_id: Seq<char>,
    pub transition: TransitionView<S>,
    pub metadata: Map<String, String>,
}

/// A state change of one entity, made to be handed to the reporter.
#[derive(Clone, Debug)]
pub struct StateChangeEvent<S> {
    timestamp: Timestamp,
    entity_id: String,
    transition: StateTransition<S>,
    metadata: HashMap<String, String>,
}

impl<S> View for StateChangeEvent<S> {
    type V = EventView<S>;

    closed spec fn view(&self) -> EventView<S> {
        EventView {
            timestamp: self.timestamp,
            entity_id: self.entity_id@,
            transition: self.transition@,
            metadata: self.metadata@,
        }
    }
}

impl<S> StateChangeEvent<S> {
    /// Creates an event that happens now.
    pub fn new(
        entity_id: String,
        transition: StateTransition<S>,
        metadata: HashMap<String, String>,
    ) -> (e: StateChangeEvent<S>)
        ensures
            e@.entity_id == entity_id@,
            e@.transition == transition@,
            e@.metadata == metadata@,
    {
        StateChangeEvent { entity_id, transition, timestamp: Timestamp::now(), metadata }
    }

    /// The id of the entity that changed state.
    pub fn entity_id(&self) -> (id: &String)
        ensures
            id@ == self@.entity_id,
    {
        &self.entity_id
    }

    /// The transition that occurred.
    pub fn transition(&self) -> (t: &StateTransition<S>)
        ensures
            t@ == self@.transition,
    {
        &self.transition
    }

    /// The time the event was created.
    pub fn timestamp(&self) -> (t: Timestamp)
        ensures
            t == self@.timestamp,
    {
        self.timestamp
    }

    /// The metadata that came with the event.
    pub fn metadata(&self) -> (m: &HashMap<String, String>)
        ensures
            m@ == self@.metadata,
    {
        &self.metadata
    }

    /// Creates an event without metadata.
    pub fn new_fast(entity_id: String, transition: StateTransition<S>) -> (e: StateChangeEvent<S>)
        ensures
            e@.entity_id == entity_id@,
            e@.transition == transition@,
            e@.metadata == Map::<String, String>::empty(),
    {
        StateChangeEvent {
            entity_id,
            transition,
            timestamp: Timestamp::now(),
            metadata: HashMap::with_capacity(0),
        }
    }

    /// Creates an event without metadata, with room for `metadata_capacity`
    /// entries.
    pub fn with_capacity(
        entity_id: String,
        transition: StateTransition<S>,
        metadata_capacity: usize,
    ) -> (e: StateChangeEvent<S>)
        ensures
            e@.entity_id == entity_id@,
            e@.transition == transition@,
            e@.metadata == Map::<String, String>::empty(),
    {
        StateChangeEvent {
            entity_id,
            transition,
            timestamp: Timestamp::now(),
            metadata: HashMap::with_capacity(metadata_capacity),
        }
    }
}

/// How state should be synchronized.
#[derive(Clone, Copy, Debug, PartialEq, Eq, Structural)]
pub enum SyncStrategy {
    Immediate,
    Eventual { delay_ms: u64 },
    OnDemand,
}

/// Configuration for state synchronization.
#[derive(Clone, Copy, Debug, PartialEq, Eq, Structural)]
pub struct StateSyncConfig {
    pub report_interval: Duration,
    pub retry_attempts: u32,
    pub retry_delay: Duration,
}

impl StateSyncConfig {
    /// What is wrong with the configuration, if anything: the number of
    /// attempts is looked at first, then the delay.
    pub open spec fn complaint(self) -> Option<Seq<char>> {
        if self.retry_attempts == 0 {
            Some("retry_attempts must be greater than 0"@)
        } else if self.retry_delay@ == 0 {
            Some("retry_delay must be greater than 0"@)
        } else {
            None
        }
    }

    /// The default configuration with the given report interval.
    pub fn new(report_interval: Duration) -> (c: StateSyncConfig)
        ensures
            c.report_interval == report_interval,
            c.retry_attempts == 3,
            c.retry_delay@ == NANOS_PER_SEC,
    {
        StateSyncConfig { report_interval, retry_attempts: 3, retry_delay: Duration::from_secs(1) }
    }

    /// The same configuration with another number of attempts.
    pub fn with_retry_attempts(self, attempts: u32) -> (c: StateSyncConfig)
        ensures
            c == (StateSyncConfig { retry_attempts: attempts, ..self }),
    {
        let mut c = self;
        c.retry_attempts = attempts;
        c
    }

    /// The same configuration with another delay between attempts.
    pub fn with_retry_delay(self, delay: Duration) -> (c: StateSyncConfig)
        ensures
            c == (StateSyncConfig { retry_delay: delay, ..self }),
    {
        let mut c = self;
        c.retry_delay = delay;
        c
    }

    /// The interval for reporting state changes.
    pub fn report_interval(&self) -> (d: Duration)
        ensures
            d == self.report_interval,
    {
        self.report_interval
    }

    /// The number of attempts to report one event.
    pub fn retry_attempts(&self) -> (n: u32)
        ensures
            n == self.retry_attempts,
    {
        self.retry_attempts
    }

    /// The delay between two attempts.
    pub fn retry_delay(&self) -> (d: Duration)
        ensures
            d == self.retry_delay,
    {
        self.retry_delay
    }

    /// Checks the configuration: at least one attempt, and a delay that is
    /// not zero.
    pub fn validate(&self) -> (r: Result<(), CaptureError>)
        ensures
            self.complaint() matches Some(message) ==> (r matches Err(e) && e@ == invalid_value(
                message,
            )),
            self.complaint().is_none() ==> r.is_ok(),
    {
        if self.retry_attempts == 0 {
            let e = CaptureError::new(
                CaptureErrorKind::Configuration(ConfigErrorKind::InvalidValue),
                "retry_attempts must be greater than 0",
            );
            return Err(*e);
        }
        if self.retry_delay.is_zero() {
            let e = CaptureError::new(
                CaptureErrorKind::Configuration(ConfigErrorKind::InvalidValue),
                "retry_delay must be greater than 0",
            );
            return Err(*e);
        }
        Ok(())
    }
}

impl Default for StateSyncConfig {
    /// One second between reports, three attempts, one second between
    /// attempts.
    fn default() -> (c: StateSyncConfig)
        ensures
            c.report_interval@ == NANOS_PER_SEC,
            c.retry_attempts == 3,
            c.retry_delay@ == NANOS_PER_SEC,
    {
        StateSyncConfig {
            report_interval: Duration::from_secs(1),
            retry_attempts: 3,
            retry_delay: Duration::from_secs(1),
        }
    }
}

/// What a `SyncMetrics` holds, as plain values.
pub struct SyncMetricsView {
    pub sync_attempts: u64,
    pub failed_syncs: u64,
    pub average_sync_time: u64,
}

impl SyncMetricsView {
    /// Counters that have seen nothing.
    pub open spec fn zero() -> SyncMetricsView {
        SyncMetricsView { sync_attempts: 0, failed_syncs: 0, average_sync_time: 0 }
    }

    /// The counters after one successful sync that took `duration`.
    pub open spec fn succeeded(self, duration: u64) -> SyncMetricsView {
        SyncMetricsView {
            sync_attempts: bump(self.sync_attempts),
            average_sync_time: folded_average(self.average_sync_time, duration, self.sync_attempts),
            ..self
        }
    }

    /// The counters after one failed sync.
    pub open spec fn failed(self) -> SyncMetricsView {
        SyncMetricsView { failed_syncs: bump(self.failed_syncs), ..self }
    }
}

/// Metrics for sync operations.
#[derive(Clone, Debug)]
pub struct SyncMetrics {
    sync_attempts: u64,
    failed_syncs: u64,
    average_sync_time: u64,
}

impl View for SyncMetrics {
    type V = SyncMetricsView;

    closed spec fn view(&self) -> SyncMetricsView {
        SyncMetricsView {
            sync_attempts: self.sync_attempts,
            failed_syncs: self.failed_syncs,
            average_sync_time: self.average_sync_time,
        }
    }
}

impl SyncMetrics {
    /// Counters that have seen nothing.
    pub fn new() -> (m: SyncMetrics)
        ensures
            m@ == SyncMetricsView::zero(),
    {
        SyncMetrics { sync_attempts: 0, failed_syncs: 0, average_sync_time: 0 }
    }

    /// Counts one successful sync and folds its duration into the average.
    pub fn record_sync_attempt(&mut self, duration_ms: u64)
        ensures
            final(self)@ == old(self)@.succeeded(duration_ms),
    {
        let seen = self.sync_attempts;
        self.sync_attempts = seen.wrapping_add(1);
        self.average_sync_time = fold_average(self.average_sync_time, duration_ms, seen);
    }

    /// Counts one failed sync.
    pub fn record_failed_sync(&mut self)
        ensures
            final(self)@ == old(self)@.failed(),
    {
        self.failed_syncs = self.failed_syncs.wrapping_add(1);
    }

    /// The number of successful syncs.
    pub fn sync_attempts(&self) -> (n: u64)
        ensures
            n == self@.sync_attempts,
    {
        self.sync_attempts
    }

    /// The number of failed syncs.
    pub fn failed_syncs(&self) -> (n: u64)
        ensures
            n == self@.failed_syncs,
    {
        self.failed_syncs
    }

    /// The running average of the time a successful sync took.
    pub fn average_sync_time(&self) -> (n: u64)
        ensures
            n == self@.average_sync_time,
    {
        self.average_sync_time
    }
}

impl Default for SyncMetrics {
    fn default() -> (m: SyncMetrics)
        ensures
            m@ == SyncMetricsView::zero(),
    {
        SyncMetrics::new()
    }
}

/// The reason under which a state update is remembered in the history.
pub open spec fn update_reason() -> Seq<char> {
    "State update"@
}

/// The reason under which a restored state is remembered in the history.
pub open spec fn restore_reason() -> Seq<char> {
    "State restored"@
}

/// The error that ends an update whose reports ran out without any of them
/// having been made.
pub open spec fn retries_exhausted() -> CaptureErrorView {
    CaptureErrorView {
        kind: CaptureErrorKind::Runtime(RuntimeErrorKind::OperationFailed),
        message: "Failed to report state change after all retries"@,
        causes: Seq::empty(),
        context: empty_context(),
    }
}

/// The error that answers a builder that lacks a required field.
pub open spec fn missing_field(message: Seq<char>) -> CaptureErrorView {
    invalid_value(message)
}

/// The lower 64 bits of a span in nanoseconds: the sample that goes into the
/// average sync time.
pub open spec fn sample_of(span: nat) -> u64 {
    (span % 0x1_0000_0000_0000_0000) as u64
}

/// What the caller of the reporting loop is to do next.
#[derive(Debug)]
pub enum SyncAction {
    /// Hand the event to the reporter now.
    Report,
    /// Wait for the given delay, then hand the event to the reporter again.
    RetryAfter(Duration),
    /// The update is over, with this result.
    Finish(Result<(), CaptureError>),
}

/// What a `PendingReport` holds, as plain values.
pub struct PendingView<S> {
    pub event: EventView<S>,
    pub started: Timestamp,
    pub attempts: u32,
}

/// A state update that is committed locally and not yet reported: the event
/// to report, when the update began, and how many reports have failed.
#[derive(Debug)]
pub struct PendingReport<S> {
    event: StateChangeEvent<S>,
    started: Timestamp,
    attempts: u32,
}

impl<S> View for PendingReport<S> {
    type V = PendingView<S>;

    closed spec fn view(&self) -> PendingView<S> {
        PendingView { event: self.event@, started: self.started, attempts: self.attempts }
    }
}

impl<S> PendingReport<S> {
    /// The event to report.
    pub fn event(&self) -> (e: &StateChangeEvent<S>)
        ensures
            e@ == self@.event,
    {
        &self.event
    }

    /// When the update began.
    pub fn started(&self) -> (t: Timestamp)
        ensures
            t == self@.started,
    {
        self.started
    }

    /// How many reports of this event have failed.
    pub fn attempts(&self) -> (n: u32)
        ensures
            n == self@.attempts,
    {
        self.attempts
    }
}

/// The mathematical model of a `StateSync`.
#[verifier::reject_recursive_types(S)]
pub struct SyncView<S> {
    pub engine_id: Seq<char>,
    pub machine: MachineView<S>,
    pub metrics: SyncMetricsView,
    pub config: StateSyncConfig,
}

impl<S> SyncView<S> {
    /// The number of failed reports after one more, which stops at the top of
    /// its range.
    pub open spec fn failures_after(attempts: u32) -> u32 {
        if attempts == u32::MAX {
            attempts
        } else {
            (attempts + 1) as u32
        }
    }

    /// Whether another report is due after `attempts` failed ones.
    pub open spec fn may_report(self, attempts: u32) -> bool {
        attempts < self.config.retry_attempts
    }

    /// The metrics after a report succeeded at `now` for an update that began
    /// at `started`. A clock that went backwards gives no sample.
    pub open spec fn after_success(self, started: Timestamp, now: Timestamp) -> SyncMetricsView {
        if started@ <= now@ {
            self.metrics.succeeded(sample_of((now@ - started@) as nat))
        } else {
            self.metrics
        }
    }
}

/// State synchronization engine: a local state machine whose accepted
/// transitions are reported to the control plane.
#[derive(Debug)]
pub struct StateSync<S: Copy + Eq> {
    engine_id: String,
    state_machine: StateMachine<S>,
    metrics: SyncMetrics,
    config: StateSyncConfig,
}

impl<S: Copy + Eq> View for StateSync<S> {
    type V = SyncView<S>;

    closed spec fn view(&self) -> SyncView<S> {
        SyncView {
            engine_id: self.engine_id@,
            machine: self.state_machine@,
            metrics: self.metrics@,
            config: self.config,
        }
    }
}

impl<S: Copy + Eq> StateSync<S> {
    /// A builder that has been told nothing.
    pub fn builder() -> (b: StateSyncBuilder<S>)
        ensures
            b.engine_id.is_none(),
            b.state_machine.is_none(),
            b.config.is_none(),
    {
        StateSyncBuilder::new()
    }

    /// Commits the transition to `new_state` on the local machine and makes
    /// the event to report.
    ///
    /// The local machine decides alone: an illegal transition fails at once
    /// with the machine's own error and nothing is to be reported. A legal
    /// one is committed before any report is tried, and stays committed
    /// whatever becomes of the reports.
    pub fn begin_update(&mut self, new_state: S, metadata: HashMap<String, String>) -> (r: Result<
        PendingReport<S>,
        CaptureError,
    >)
        ensures
            obeys_concrete_eq::<S>() ==> (r.is_ok() <==> old(self)@.machine.allows(new_state)),
            final(self)@.engine_id == old(self)@.engine_id,
            final(self)@.metrics == old(self)@.metrics,
            final(self)@.config == old(self)@.config,
            old(self)@.machine.wf() ==> final(self)@.machine.wf(),
            r matches Ok(pending) ==> {
                let entry = final(self)@.machine.history.last();
                &&& final(self)@.machine == old(self)@.machine.accept(entry)
                &&& entry.from == old(self)@.machine.current
                &&& entry.to == new_state
                &&& entry.reason == Some(update_reason())
                &&& pending@.attempts == 0
                &&& pending@.event.entity_id == old(self)@.engine_id
                &&& pending@.event.metadata == metadata@
                &&& pending@.event.transition.from == old(self)@.machine.current
                &&& pending@.event.transition.to == new_state
                &&& pending@.event.transition.reason.is_none()
            },
            r matches Err(e) ==> {
                &&& final(self)@.machine == old(self)@.machine.reject()
                &&& e@ == invalid_transition()
            },
    {
        let started = Timestamp::now();
        let current = *self.state_machine.current_state();
        let transition = StateTransition::new(current, new_state, None);
        match self.state_machine.transition_to(new_state, Some("State update".to_owned())) {
            Ok(()) => {},
            Err(e) => {
                return Err(e);
            },
        }
        let event = StateChangeEvent::new(self.engine_id.clone(), transition, metadata);
        Ok(PendingReport { event, started, attempts: 0 })
    }

    /// Says how the reporting of `pending` begins: with a report where the
    /// configuration allows one, else with the failure that stands for
    /// retries that ran out before any error was seen, which counts as one
    /// failed sync.
    pub fn start_reporting(&mut self, pending: &PendingReport<S>) -> (action: SyncAction)
        ensures
            final(self)@.engine_id == old(self)@.engine_id,
            final(self)@.machine == old(self)@.machine,
            final(self)@.config == old(self)@.config,
            old(self)@.may_report(pending@.attempts) ==> {
                &&& action is Report
                &&& final(self)@.metrics == old(self)@.metrics
            },
            !old(self)@.may_report(pending@.attempts) ==> {
                &&& action matches SyncAction::Finish(Err(e)) && e@ == retries_exhausted()
                &&& final(self)@.metrics == old(self)@.metrics.failed()
            },
    {
        if pending.attempts < self.config.retry_attempts {
            SyncAction::Report
        } else {
            self.metrics.record_failed_sync();
            let e = CaptureError::new(
                CaptureErrorKind::Runtime(RuntimeErrorKind::OperationFailed),
                "Failed to report state change after all retries",
            );
            SyncAction::Finish(Err(*e))
        }
    }

    /// Takes the outcome of one report of `pending`, read at the time `now`,
    /// and says what follows.
    ///
    /// A success ends the update; the time since the update began is folded
    /// into the average sync time. A failure counts against the configured
    /// number of attempts: while attempts are left the answer is to wait for
    /// the retry delay and report again; with the last attempt spent the
    /// update ends with the error of that attempt and counts as one failed
    /// sync. The local machine is never touched.
    pub fn report_outcome(
        &mut self,
        pending: &mut PendingReport<S>,
        outcome: Result<(), CaptureError>,
        now: Timestamp,
    ) -> (action: SyncAction)
        ensures
            final(self)@.engine_id == old(self)@.engine_id,
            final(self)@.machine == old(self)@.machine,
            final(self)@.config == old(self)@.config,
            final(pending)@.event == old(pending)@.event,
            final(pending)@.started == old(pending)@.started,
            outcome.is_ok() ==> {
                &&& action matches SyncAction::Finish(Ok(_))
                &&& final(pending)@.attempts == old(pending)@.attempts
                &&& final(self)@.metrics == old(self)@.after_success(old(pending)@.started, now)
            },
            outcome matches Err(reported) ==> {
                let failures = SyncView::<S>::failures_after(old(pending)@.attempts);
                &&& final(pending)@.attempts == failures
                &&& old(self)@.may_report(failures) ==> {
                    &&& action == SyncAction::RetryAfter(old(self)@.config.retry_delay)
                    &&& final(self)@.metrics == old(self)@.metrics
                }
                &&& !old(self)@.may_report(failures) ==> {
                    &&& action == SyncAction::Finish(Err(reported))
                    &&& final(self)@.metrics == old(self)@.metrics.failed()
                }
            },
    {
        match outcome {
            Ok(()) => {
                match now.duration_since(pending.started) {
                    Some(elapsed) => {
                        let low: u128 = elapsed.as_nanos() % 0x1_0000_0000_0000_0000u128;
                        self.metrics.record_sync_attempt(low as u64);
                    },
                    None => {},
                }
                SyncAction::Finish(Ok(()))
            },
            Err(reported) => {
                if pending.attempts < u32::MAX {
                    pending.attempts = pending.attempts + 1;
                }
                if pending.attempts < self.config.retry_attempts {
                    SyncAction::RetryAfter(self.config.retry_delay)
                } else {
                    self.metrics.record_failed_sync();
                    SyncAction::Finish(Err(reported))
                }
            },
        }
    }

    /// Puts the local machine into `state`, as a state that was saved
    /// earlier. Nothing is reported.
    pub fn restore_state(&mut self, state: S)
        ensures
            ({
                let entry = final(self)@.machine.history.last();
                &&& final(self)@.machine == old(self)@.machine.accept(entry)
                &&& entry.from == old(self)@.machine.current
                &&& entry.to == state
                &&& entry.reason == Some(restore_reason())
            }),
            final(self)@.engine_id == old(self)@.engine_id,
            final(self)@.metrics == old(self)@.metrics,
            final(self)@.config == old(self)@.config,
            old(self)@.machine.wf() ==> final(self)@.machine.wf(),
    {
        self.state_machine.restore_state(state, Some("State restored".to_owned()));
    }

    /// The id of this engine, which every event carries.
    pub fn engine_id(&self) -> (id: &String)
        ensures
            id@ == self@.engine_id,
    {
        &self.engine_id
    }

    /// The configuration.
    pub fn config(&self) -> (c: &StateSyncConfig)
        ensures
            *c == self@.config,
    {
        &self.config
    }

    /// The local state machine.
    pub fn state_machine(&self) -> (m: &StateMachine<S>)
        ensures
            m@ == self@.machine,
    {
        &self.state_machine
    }

    /// The metrics of the sync operations.
    pub fn metrics(&self) -> (m: &SyncMetrics)
        ensures
            m@ == self@.metrics,
    {
        &self.metrics
    }

    /// The current state of the local machine.
    pub fn current_state(&self) -> (r: Result<S, CaptureError>)
        ensures
            r matches Ok(s) && s == self@.machine.current,
    {
        Ok(*self.state_machine.current_state())
    }
}

/// Builder for `StateSync`.
#[derive(Clone, Debug)]
pub struct StateSyncBuilder<S: Copy + Eq> {
    pub engine_id: Option<String>,
    pub state_machine: Option<StateMachine<S>>,
    pub config: Option<StateSyncConfig>,
}

impl<S: Copy + Eq> StateSyncBuilder<S> {
    /// What is missing, if anything: the engine id is asked for first, then
    /// the state machine, then the configuration.
    pub open spec fn complaint(self) -> Option<Seq<char>> {
        if self.engine_id.is_none() {
            Some("engine_id is required"@)
        } else if self.state_machine.is_none() {
            Some("state_machine is required"@)
        } else if self.config.is_none() {
            Some("config is required"@)
        } else {
            None
        }
    }

    /// A builder that has been told nothing.
    pub fn new() -> (b: StateSyncBuilder<S>)
        ensures
            b.engine_id.is_none(),
            b.state_machine.is_none(),
            b.config.is_none(),
    {
        StateSyncBuilder { engine_id: None, state_machine: None, config: None }
    }

    /// Sets the engine id.
    pub fn with_engine_id(self, engine_id: String) -> (b: StateSyncBuilder<S>)
        ensures
            b == (StateSyncBuilder { engine_id: Some(engine_id), ..self }),
    {
        let mut b = self;
        b.engine_id = Some(engine_id);
        b
    }

    /// Sets the local state machine.
    pub fn with_state_machine(self, state_machine: StateMachine<S>) -> (b: StateSyncBuilder<S>)
        ensures
            b == (StateSyncBuilder { state_machine: Some(state_machine), ..self }),
    {
        let mut b = self;
        b.state_machine = Some(state_machine);
        b
    }

    /// Sets the configuration.
    pub fn with_config(self, config: StateSyncConfig) -> (b: StateSyncBuilder<S>)
        ensures
            b == (StateSyncBuilder { config: Some(config), ..self }),
    {
        let mut b = self;
        b.config = Some(config);
        b
    }

    /// Builds the `StateSync`, or says which required field is missing. The
    /// metrics start at zero.
    pub fn build(self) -> (r: Result<StateSync<S>, CaptureError>)
        ensures
            self.complaint() matches Some(message) ==> (r matches Err(e) && e@ == missing_field(
                message,
            )),
            self.complaint().is_none() ==> (r matches Ok(sync) && sync@ == (SyncView {
                engine_id: self.engine_id.unwrap()@,
                machine: self.state_machine.unwrap()@,
                metrics: SyncMetricsView::zero(),
                config: self.config.unwrap(),
            })),
    {
        let engine_id = match self.engine_id {
            Some(id) => id,
            None => {
                let e = CaptureError::new(
                    CaptureErrorKind::Configuration(ConfigErrorKind::InvalidValue),
                    "engine_id is required",
                );
                return Err(*e);
            },
        };
        let state_machine = match self.state_machine {
            Some(machine) => machine,
            None => {
                let e = CaptureError::new(
                    CaptureErrorKind::Configuration(ConfigErrorKind::InvalidValue),
                    "state_machine is required",
                );
                return Err(*e);
            },
        };
        let config = match self.config {
            Some(config) => config,
            None => {
                let e = CaptureError::new(
                    CaptureErrorKind::Configuration(ConfigErrorKind::InvalidValue),
                    "config is required",
                );
                return Err(*e);
            },
        };
        Ok(StateSync { engine_id, state_machine, metrics: SyncMetrics::new(), config })
    }
}

impl<S: Copy + Eq> Default for StateSyncBuilder<S> {
    fn default() -> (b: StateSyncBuilder<S>)
        ensures
            b.engine_id.is_none(),
            b.state_machine.is_none(),
            b.config.is_none(),
    {
        StateSyncBuilder::new()
    }
}

} // verus!
