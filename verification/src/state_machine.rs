//! Generic finite-state engine: a current state, a graph of allowed
//! transitions, a bounded first-in-first-out history and counters.
//!
//! States are plain values that are compared structurally. Where a contract
//! depends on what `==` answers for the state type, it is stated for types
//! whose `==` is structural equality (`obeys_concrete_eq`).

use vstd::prelude::*;
use vstd::laws_eq::obeys_concrete_eq;
use std::collections::VecDeque;
use crate::capture_error::{
    CaptureError, CaptureErrorKind, CaptureErrorView, ConfigErrorKind, ResourceErrorKind,
    empty_context, text_of,
};
use crate::time::Timestamp;

verus! {

/// The largest history bound that `StateMachineBuilder::build` accepts.
pub const MAX_HISTORY_LIMIT: usize = 10000;

/// The history bound of a builder that has not been given one.
pub const DEFAULT_MAX_HISTORY: usize = 100;

/// A counter after one more event: counters wrap around at the top of their
/// range, as atomic counters do.
pub open spec fn bump(count: u64) -> u64 {
    if count == u64::MAX {
        0
    } else {
        (count + 1) as u64
    }
}

/// A counter after `by` more events, wrapping around at the top of its range.
pub open spec fn advanced(count: u64, by: nat) -> u64 {
    ((count + by) % 0x1_0000_0000_0000_0000) as u64
}

/// One more event moves a counter that has counted `n` events to the count
/// of `n + 1`.
pub proof fn lemma_advanced_step(count: u64, n: nat)
    ensures
        advanced(count, 0) == count,
        bump(advanced(count, n)) == advanced(count, n + 1),
{
}

/// A running average `avg` over `seen` earlier samples, after the sample `x`
/// is folded in: `avg + (x - avg) / n`, where `n` counts the samples with the
/// new one. The first sample is taken as it is. A later one moves the average
/// towards itself by the `n`-th part of their distance, rounded towards the
/// average, so the result lies between the two.
pub open spec fn folded_average(avg: u64, x: u64, seen: u64) -> u64 {
    if seen == 0 {
        x
    } else if x >= avg {
        (avg + (x - avg) / (seen + 1)) as u64
    } else {
        (avg - (avg - x) / (seen + 1)) as u64
    }
}

/// Folds the sample `x` into the running average `avg` over `seen` earlier
/// samples, without overflow.
pub fn fold_average(avg: u64, x: u64, seen: u64) -> (r: u64)
    ensures
        r == folded_average(avg, x, seen),
        seen > 0 && x >= avg ==> avg <= r <= x,
        seen > 0 && x < avg ==> x <= r <= avg,
{
    if seen == 0 {
        x
    } else if seen == u64::MAX {
        proof {
            if x >= avg {
                assert((x - avg) / (seen + 1) == 0) by (nonlinear_arith)
                    requires
                        0 <= x - avg < seen + 1,
                ;
            } else {
                assert((avg - x) / (seen + 1) == 0) by (nonlinear_arith)
                    requires
                        0 <= avg - x < seen + 1,
                ;
            }
        }
        avg
    } else if x >= avg {
        let step = (x - avg) / (seen + 1);
        avg + step
    } else {
        let step = (avg - x) / (seen + 1);
        avg - step
    }
}

/// What a `StateTransition` holds, as plain values.
pub struct TransitionView<S> {
    pub from: S,
    pub to: S,
    pub timestamp: Timestamp,
    pub reason: Option<Seq<char>>,
}

/// Record of one accepted transition: where from, where to, when and why.
/// It is made once and never changed.
#[derive(Clone, Debug)]
pub struct StateTransition<S> {
    from: S,
    to: S,
    timestamp: Timestamp,
    reason: Option<String>,
}

impl<S> View for StateTransition<S> {
    type V = TransitionView<S>;

    closed spec fn view(&self) -> TransitionView<S> {
        TransitionView {
            from: self.from,
            to: self.to,
            timestamp: self.timestamp,
            reason: text_of(self.reason),
        }
    }
}

impl<S> StateTransition<S> {
    /// Creates the record of a transition that happens now.
    pub fn new(from: S, to: S, reason: Option<String>) -> (t: StateTransition<S>)
        ensures
            t@.from == from,
            t@.to == to,
            t@.reason == text_of(reason),
    {
        StateTransition { from, to, timestamp: Timestamp::now(), reason }
    }

    /// Creates the record of a transition that happened at `timestamp`.
    pub fn at(from: S, to: S, timestamp: Timestamp, reason: Option<String>) -> (t:
        StateTransition<S>)
        ensures
            t@ == (TransitionView { from, to, timestamp, reason: text_of(reason) }),
    {
        StateTransition { from, to, timestamp, reason }
    }

    /// The source state.
    pub fn from(&self) -> (s: &S)
        ensures
            *s == self@.from,
    {
        &self.from
    }

    /// The target state.
    pub fn to(&self) -> (s: &S)
        ensures
            *s == self@.to,
    {
        &self.to
    }

    /// The time of the transition.
    pub fn timestamp(&self) -> (t: Timestamp)
        ensures
            t == self@.timestamp,
    {
        self.timestamp
    }

    /// The reason given for the transition, if any.
    pub fn reason(&self) -> (r: Option<&String>)
        ensures
            r.is_some() == self@.reason.is_some(),
            r.is_some() ==> r.unwrap()@ == self@.reason.unwrap(),
    {
        self.reason.as_ref()
    }
}

impl<S: Copy> StateTransition<S> {
    /// A copy of this record.
    pub fn duplicate(&self) -> (t: StateTransition<S>)
        ensures
            t@ == self@,
    {
        let reason = match &self.reason {
            Some(r) => Some(r.clone()),
            None => None,
        };
        StateTransition { from: self.from, to: self.to, timestamp: self.timestamp, reason }
    }
}

/// What a `StateMetrics` holds, as plain values.
pub struct MetricsView {
    pub transitions_count: u64,
    pub failed_transitions: u64,
    pub average_transition_time: u64,
}

impl MetricsView {
    /// Counters that have seen nothing.
    pub open spec fn zero() -> MetricsView {
        MetricsView { transitions_count: 0, failed_transitions: 0, average_transition_time: 0 }
    }

    /// The counters after one transition that took `duration_ns`.
    pub open spec fn recorded(self, duration_ns: u64) -> MetricsView {
        MetricsView {
            transitions_count: bump(self.transitions_count),
            average_transition_time: folded_average(
                self.average_transition_time,
                duration_ns,
                self.transitions_count,
            ),
            ..self
        }
    }

    /// The counters after one accepted transition whose duration is not
    /// measured.
    pub open spec fn accepted(self) -> MetricsView {
        MetricsView { transitions_count: bump(self.transitions_count), ..self }
    }

    /// The counters after one rejected transition.
    pub open spec fn failed(self) -> MetricsView {
        MetricsView { failed_transitions: bump(self.failed_transitions), ..self }
    }
}

/// Counters of a state machine: accepted and rejected transitions, and the
/// running average of the time a transition took.
#[derive(Clone, Debug)]
pub struct StateMetrics {
    transitions_count: u64,
    failed_transitions: u64,
    average_transition_time: u64,
}

impl View for StateMetrics {
    type V = MetricsView;

    closed spec fn view(&self) -> MetricsView {
        MetricsView {
            transitions_count: self.transitions_count,
            failed_transitions: self.failed_transitions,
            average_transition_time: self.average_transition_time,
        }
    }
}

impl StateMetrics {
    /// Counters that have seen nothing.
    pub fn new() -> (m: StateMetrics)
        ensures
            m@ == MetricsView::zero(),
    {
        StateMetrics { transitions_count: 0, failed_transitions: 0, average_transition_time: 0 }
    }

    /// Counts one transition and folds its duration into the average.
    pub fn record_transition(&mut self, duration_ns: u64)
        ensures
            final(self)@ == old(self)@.recorded(duration_ns),
    {
        let seen = self.transitions_count;
        self.transitions_count = seen.wrapping_add(1);
        self.average_transition_time = fold_average(
            self.average_transition_time,
            duration_ns,
            seen,
        );
    }

    /// Counts one accepted transition without a measured duration.
    pub fn record_accepted(&mut self)
        ensures
            final(self)@ == old(self)@.accepted(),
    {
        self.transitions_count = self.transitions_count.wrapping_add(1);
    }

    /// Counts one rejected transition.
    pub fn record_failed_transition(&mut self)
        ensures
            final(self)@ == old(self)@.failed(),
    {
        self.failed_transitions = self.failed_transitions.wrapping_add(1);
    }

    /// The number of accepted transitions.
    pub fn transitions_count(&self) -> (n: u64)
        ensures
            n == self@.transitions_count,
    {
        self.transitions_count
    }

    /// The number of rejected transitions.
    pub fn failed_transitions(&self) -> (n: u64)
        ensures
            n == self@.failed_transitions,
    {
        self.failed_transitions
    }

    /// The running average of the time a transition took, in nanoseconds.
    pub fn average_transition_time(&self) -> (n: u64)
        ensures
            n == self@.average_transition_time,
    {
        self.average_transition_time
    }
}

impl Default for StateMetrics {
    fn default() -> (m: StateMetrics)
        ensures
            m@ == MetricsView::zero(),
    {
        StateMetrics::new()
    }
}

/// The records of a history, as plain values, oldest first.
pub open spec fn transitions_view<S>(records: Seq<StateTransition<S>>) -> Seq<TransitionView<S>> {
    records.map_values(|t: StateTransition<S>| t@)
}

/// The edges of a list of pairs, as a set.
pub open spec fn edge_set<S>(edges: Seq<(S, S)>) -> Set<(S, S)> {
    Set::new(|e: (S, S)| edges.contains(e))
}

/// The mathematical model of a state machine.
#[verifier::reject_recursive_types(S)]
pub struct MachineView<S> {
    /// The state the machine is in.
    pub current: S,
    /// The allowed transitions, as pairs of source and target.
    pub graph: Set<(S, S)>,
    /// The accepted transitions that are still remembered, oldest first.
    pub history: Seq<TransitionView<S>>,
    /// How many transitions are remembered at most.
    pub max_history: nat,
    /// The counters.
    pub metrics: MetricsView,
}

impl<S> MachineView<S> {
    /// The machine as `new` makes it: no edge, no history, counters at zero.
    pub open spec fn initial(state: S, max_history: nat) -> MachineView<S> {
        MachineView {
            current: state,
            graph: Set::empty(),
            history: Seq::empty(),
            max_history,
            metrics: MetricsView::zero(),
        }
    }

    /// Whether the remembered transitions form one path that ends in the
    /// current state: each record starts in the state in which the one
    /// before it ended, and the last one ended in the current state.
    pub open spec fn linked(self) -> bool {
        &&& forall|i: int|
            0 <= i < self.history.len() - 1 ==> (#[trigger] self.history[i]).to
                == self.history[i + 1].from
        &&& self.history.len() > 0 ==> self.history.last().to == self.current
    }

    /// What holds of every machine: it remembers at least one transition and
    /// never more than its bound, and what it remembers is a path that ends
    /// in the current state.
    pub open spec fn wf(self) -> bool {
        &&& self.max_history > 0
        &&& self.history.len() <= self.max_history
        &&& self.linked()
    }

    /// Whether an edge leads from the current state to `target`.
    pub open spec fn allows(self, target: S) -> bool {
        self.graph.contains((self.current, target))
    }

    /// The machine with one more edge. An edge that is there already changes
    /// nothing.
    pub open spec fn with_edge(self, from: S, to: S) -> MachineView<S> {
        MachineView { graph: self.graph.insert((from, to)), ..self }
    }

    /// The history after `entry` is appended: at capacity the oldest record
    /// leaves first.
    pub open spec fn remembered(self, entry: TransitionView<S>) -> Seq<TransitionView<S>> {
        if self.history.len() > 0 && self.history.len() >= self.max_history {
            self.history.skip(1).push(entry)
        } else {
            self.history.push(entry)
        }
    }

    /// The machine after the transition that `entry` records was accepted: the
    /// record is remembered, the target becomes the current state, and the
    /// counter of accepted transitions moves by one.
    pub open spec fn accept(self, entry: TransitionView<S>) -> MachineView<S> {
        MachineView {
            current: entry.to,
            history: self.remembered(entry),
            metrics: self.metrics.accepted(),
            ..self
        }
    }

    /// The machine after a transition was rejected: only the counter of
    /// rejected transitions moves.
    pub open spec fn reject(self) -> MachineView<S> {
        MachineView { metrics: self.metrics.failed(), ..self }
    }

    /// The machine after one attempt at the transition that `entry` records:
    /// accepted where an edge leads to the target, rejected where none does.
    pub open spec fn attempt(self, entry: TransitionView<S>) -> MachineView<S> {
        if self.allows(entry.to) {
            self.accept(entry)
        } else {
            self.reject()
        }
    }

    /// The machine after the attempts that `entries` record, made one after
    /// the other.
    pub open spec fn attempts(self, entries: Seq<TransitionView<S>>) -> MachineView<S>
        decreases entries.len(),
    {
        if entries.len() == 0 {
            self
        } else {
            self.attempts(entries.drop_last()).attempt(entries.last())
        }
    }
}

/// The error that answers an illegal transition.
pub open spec fn invalid_transition() -> CaptureErrorView {
    CaptureErrorView {
        kind: CaptureErrorKind::Resource(ResourceErrorKind::InvalidState),
        message: "Invalid state transition"@,
        causes: Seq::empty(),
        context: empty_context(),
    }
}

/// The error that answers an invalid configuration value, with its message.
pub open spec fn invalid_value(message: Seq<char>) -> CaptureErrorView {
    CaptureErrorView {
        kind: CaptureErrorKind::Configuration(ConfigErrorKind::InvalidValue),
        message,
        causes: Seq::empty(),
        context: empty_context(),
    }
}

/// Core state machine.
#[derive(Clone, Debug)]
pub struct StateMachine<S: Copy + Eq> {
    current_state: S,
    allowed_transitions: Vec<(S, S)>,
    history: VecDeque<StateTransition<S>>,
    max_history: usize,
    metrics: StateMetrics,
}

impl<S: Copy + Eq> View for StateMachine<S> {
    type V = MachineView<S>;

    closed spec fn view(&self) -> MachineView<S> {
        MachineView {
            current: self.current_state,
            graph: edge_set(self.allowed_transitions@),
            history: transitions_view(self.history@),
            max_history: self.max_history as nat,
            metrics: self.metrics@,
        }
    }
}

impl<S: Copy + Eq> StateMachine<S> {
    /// Creates a machine in `initial_state` that remembers up to `max_history`
    /// transitions. A bound of zero is refused.
    pub fn new(initial_state: S, max_history: usize) -> (r: Result<StateMachine<S>, CaptureError>)
        ensures
            max_history == 0 ==> (r matches Err(e) && e@ == invalid_value(
                "History size must be greater than 0"@,
            )),
            max_history > 0 ==> (r matches Ok(m) && m@ == MachineView::initial(
                initial_state,
                max_history as nat,
            )),
    {
        if max_history == 0 {
            let e = CaptureError::new(
                CaptureErrorKind::Configuration(ConfigErrorKind::InvalidValue),
                "History size must be greater than 0",
            );
            return Err(*e);
        }
        Ok(StateMachine::fresh(initial_state, max_history))
    }

    /// A machine in `initial_state` with a history bound that is known to be
    /// above zero.
    pub(crate) fn fresh(initial_state: S, max_history: usize) -> (m: StateMachine<S>)
        requires
            max_history > 0,
        ensures
            m@ == MachineView::initial(initial_state, max_history as nat),
            m@.wf(),
    {
        let machine = StateMachine {
            current_state: initial_state,
            allowed_transitions: Vec::new(),
            history: VecDeque::new(),
            max_history,
            metrics: StateMetrics::new(),
        };
        proof {
            assert(edge_set(machine.allowed_transitions@) =~= Set::<(S, S)>::empty());
            assert(transitions_view(machine.history@) =~= Seq::<TransitionView<S>>::empty());
        }
        machine
    }

    /// Registers the edge from `from` to `to`. Registering an edge again
    /// changes nothing.
    pub fn add_transition(&mut self, from: S, to: S)
        ensures
            final(self)@ == old(self)@.with_edge(from, to),
    {
        let ghost before = self.allowed_transitions@;
        self.allowed_transitions.push((from, to));
        proof {
            let after = self.allowed_transitions@;
            assert(after[after.len() - 1] == (from, to));
            assert forall|e: (S, S)| after.contains(e) <==> before.contains(e) || e == (
                from,
                to,
            ) by {
                if before.contains(e) {
                    let j = choose|j: int| 0 <= j < before.len() && before[j] == e;
                    assert(after[j] == e);
                }
            }
            assert(edge_set(after) =~= edge_set(before).insert((from, to)));
        }
    }

    /// Whether an edge leads from the current state to `target`.
    pub fn can_transition_to(&self, target: &S) -> (allowed: bool)
        ensures
            obeys_concrete_eq::<S>() ==> allowed == self@.allows(*target),
    {
        let mut i: usize = 0;
        while i < self.allowed_transitions.len()
            invariant
                i <= self.allowed_transitions.len(),
                obeys_concrete_eq::<S>() ==> forall|j: int|
                    0 <= j < i ==> self.allowed_transitions@[j] != (self.current_state, *target),
            decreases self.allowed_transitions.len() - i,
        {
            proof {
                reveal(obeys_concrete_eq);
            }
            let edge = &self.allowed_transitions[i];
            if edge.0 == self.current_state && edge.1 == *target {
                proof {
                    if obeys_concrete_eq::<S>() {
                        assert(self.allowed_transitions@[i as int] == (
                            self.current_state,
                            *target,
                        ));
                        assert(self.allowed_transitions@.contains((self.current_state, *target)));
                    }
                }
                return true;
            }
            i = i + 1;
        }
        proof {
            if obeys_concrete_eq::<S>() {
                assert(!self.allowed_transitions@.contains((self.current_state, *target)));
            }
        }
        false
    }

    /// Attempts the transition to `new_state`.
    ///
    /// Whatever happens, the machine either accepts the transition as a whole
    /// or rejects it as a whole: on `Ok` the record of the transition is
    /// appended to the history (the oldest record leaving at capacity), the
    /// current state is `new_state` and the counter of accepted transitions
    /// has moved by one; on `Err` nothing but the counter of rejected
    /// transitions has changed. For a state type with structural `==` the
    /// transition is accepted exactly when its edge is registered.
    pub fn transition_to(&mut self, new_state: S, reason: Option<String>) -> (r: Result<
        (),
        CaptureError,
    >)
        ensures
            obeys_concrete_eq::<S>() ==> (r.is_ok() <==> old(self)@.allows(new_state)),
            r.is_ok() ==> {
                let entry = final(self)@.history.last();
                &&& final(self)@ == old(self)@.accept(entry)
                &&& entry.from == old(self)@.current
                &&& entry.to == new_state
                &&& entry.reason == text_of(reason)
            },
            r.is_err() ==> {
                &&& final(self)@ == old(self)@.reject()
                &&& r.unwrap_err()@ == invalid_transition()
            },
            obeys_concrete_eq::<S>() ==> exists|at: Timestamp|
                final(self)@ == #[trigger] old(self)@.attempt(
                    (TransitionView {
                        from: old(self)@.current,
                        to: new_state,
                        timestamp: at,
                        reason: text_of(reason),
                    }),
                ),
            old(self)@.wf() ==> final(self)@.wf(),
    {
        if !self.can_transition_to(&new_state) {
            self.metrics.record_failed_transition();
            let e = CaptureError::new(
                CaptureErrorKind::Resource(ResourceErrorKind::InvalidState),
                "Invalid state transition",
            );
            proof {
                let at: Timestamp = arbitrary();
                let entry = TransitionView {
                    from: old(self)@.current,
                    to: new_state,
                    timestamp: at,
                    reason: text_of(reason),
                };
                if obeys_concrete_eq::<S>() {
                    assert(self@ == old(self)@.attempt(entry));
                }
            }
            return Err(*e);
        }
        self.commit(new_state, reason);
        proof {
            let made = self@.history.last();
            let entry = TransitionView {
                from: old(self)@.current,
                to: new_state,
                timestamp: made.timestamp,
                reason: text_of(reason),
            };
            assert(made == entry);
            if obeys_concrete_eq::<S>() {
                assert(self@ == old(self)@.attempt(entry));
            }
        }
        Ok(())
    }

    /// Puts the machine into `state` whatever the graph says: the way back
    /// to a state that was saved earlier. It is recorded like any accepted
    /// transition: one record joins the history and the counter of accepted
    /// transitions moves by one.
    pub fn restore_state(&mut self, state: S, reason: Option<String>)
        ensures
            ({
                let entry = final(self)@.history.last();
                &&& final(self)@ == old(self)@.accept(entry)
                &&& entry.from == old(self)@.current
                &&& entry.to == state
                &&& entry.reason == text_of(reason)
            }),
            old(self)@.wf() ==> final(self)@.wf(),
    {
        self.commit(state, reason);
    }

    /// Records the transition to `new_state` and makes it the current state.
    fn commit(&mut self, new_state: S, reason: Option<String>)
        ensures
            ({
                let entry = final(self)@.history.last();
                &&& final(self)@ == old(self)@.accept(entry)
                &&& entry.from == old(self)@.current
                &&& entry.to == new_state
                &&& entry.reason == text_of(reason)
            }),
            old(self)@.wf() ==> final(self)@.wf(),
    {
        let transition = StateTransition {
            from: self.current_state,
            to: new_state,
            timestamp: Timestamp::now(),
            reason,
        };
        let ghost entry = transition@;
        let ghost before = self.history@;
        if self.history.len() >= self.max_history {
            self.history.pop_front();
        }
        self.history.push_back(transition);
        self.current_state = new_state;
        self.metrics.record_accepted();
        proof {
            if before.len() > 0 && before.len() >= self.max_history {
                assert(self.history@ =~= before.skip(1).push(transition));
                assert(transitions_view(self.history@) =~= transitions_view(before).skip(1).push(
                    entry,
                ));
            } else {
                assert(self.history@ =~= before.push(transition));
                assert(transitions_view(self.history@) =~= transitions_view(before).push(entry));
            }
            assert(transitions_view(self.history@).last() == entry);
        }
    }

    /// The state the machine is in.
    pub fn current_state(&self) -> (s: &S)
        ensures
            *s == self@.current,
    {
        &self.current_state
    }

    /// The remembered transitions, oldest first.
    pub fn history(&self) -> (h: &VecDeque<StateTransition<S>>)
        ensures
            transitions_view(h@) == self@.history,
    {
        &self.history
    }

    /// The bound on the number of remembered transitions.
    pub fn max_history(&self) -> (n: usize)
        ensures
            n == self@.max_history,
    {
        self.max_history
    }

    /// The counters of accepted and rejected transitions.
    pub fn metrics(&self) -> (m: &StateMetrics)
        ensures
            m@ == self@.metrics,
    {
        &self.metrics
    }

    /// Forgets the remembered transitions. Nothing else changes.
    pub fn clear_history(&mut self)
        ensures
            final(self)@ == (MachineView { history: Seq::empty(), ..old(self)@ }),
    {
        self.history.clear();
        proof {
            assert(transitions_view(self.history@) =~= Seq::<TransitionView<S>>::empty());
        }
    }
}

/// What a `StateMachineBuilder` has been told so far.
pub struct BuilderView<S> {
    pub initial_state: Option<S>,
    pub transitions: Seq<(S, S)>,
    pub max_history: nat,
}

impl<S> BuilderView<S> {
    /// A builder that has been told nothing: no initial state, no edge, the
    /// default history bound.
    pub open spec fn fresh() -> BuilderView<S> {
        BuilderView {
            initial_state: None,
            transitions: Seq::empty(),
            max_history: DEFAULT_MAX_HISTORY as nat,
        }
    }

    /// What is wrong with the configuration, if anything: the initial state
    /// is asked for first, then a history bound above zero, then one within
    /// the limit.
    pub open spec fn complaint(self) -> Option<Seq<char>> {
        if self.initial_state.is_none() {
            Some("Initial state must be set before building"@)
        } else if self.max_history == 0 {
            Some("History size must be greater than zero"@)
        } else if self.max_history > MAX_HISTORY_LIMIT {
            Some("History size exceeds maximum allowed value"@)
        } else {
            None
        }
    }

    /// The machine that a sound configuration builds.
    pub open spec fn machine(self) -> MachineView<S> {
        MachineView {
            graph: edge_set(self.transitions),
            ..MachineView::initial(self.initial_state.unwrap(), self.max_history)
        }
    }
}

/// Builder for state machine configuration.
#[derive(Debug)]
pub struct StateMachineBuilder<S: Copy + Eq> {
    initial_state: Option<S>,
    transitions: Vec<(S, S)>,
    max_history: usize,
}

impl<S: Copy + Eq> View for StateMachineBuilder<S> {
    type V = BuilderView<S>;

    closed spec fn view(&self) -> BuilderView<S> {
        BuilderView {
            initial_state: self.initial_state,
            transitions: self.transitions@,
            max_history: self.max_history as nat,
        }
    }
}

impl<S: Copy + Eq> StateMachineBuilder<S> {
    /// A builder that has been told nothing.
    pub fn new() -> (b: StateMachineBuilder<S>)
        ensures
            b@ == BuilderView::<S>::fresh(),
    {
        StateMachineBuilder {
            initial_state: None,
            transitions: Vec::new(),
            max_history: DEFAULT_MAX_HISTORY,
        }
    }

    /// Sets the initial state.
    pub fn initial_state(self, state: S) -> (b: StateMachineBuilder<S>)
        ensures
            b@ == (BuilderView { initial_state: Some(state), ..self@ }),
    {
        let mut b = self;
        b.initial_state = Some(state);
        b
    }

    /// Sets the maximum history size.
    pub fn max_history(self, size: usize) -> (b: StateMachineBuilder<S>)
        ensures
            b@ == (BuilderView { max_history: size as nat, ..self@ }),
    {
        let mut b = self;
        b.max_history = size;
        b
    }

    /// Adds an allowed transition.
    pub fn add_transition(self, from: S, to: S) -> (b: StateMachineBuilder<S>)
        ensures
            b@ == (BuilderView { transitions: self@.transitions.push((from, to)), ..self@ }),
    {
        let mut b = self;
        b.transitions.push((from, to));
        b
    }

    /// Checks the configuration and builds the machine: in the initial
    /// state, with every edge that was added, no history and counters at zero.
    pub fn build(self) -> (r: Result<StateMachine<S>, CaptureError>)
        ensures
            self@.complaint() matches Some(message) ==> (r matches Err(e) && e@ == invalid_value(
                message,
            )),
            self@.complaint().is_none() ==> (r matches Ok(m) && m@ == self@.machine() && m@.wf()),
    {
        let initial = match self.initial_state {
            Some(state) => state,
            None => {
                let e = CaptureError::new(
                    CaptureErrorKind::Configuration(ConfigErrorKind::InvalidValue),
                    "Initial state must be set before building",
                );
                return Err(*e);
            },
        };
        if self.max_history == 0 {
            let e = CaptureError::new(
                CaptureErrorKind::Configuration(ConfigErrorKind::InvalidValue),
                "History size must be greater than zero",
            );
            return Err(*e);
        }
        if self.max_history > MAX_HISTORY_LIMIT {
            let e = CaptureError::new(
                CaptureErrorKind::Configuration(ConfigErrorKind::InvalidValue),
                "History size exceeds maximum allowed value",
            );
            return Err(*e);
        }
        let machine = StateMachine {
            current_state: initial,
            allowed_transitions: self.transitions,
            history: VecDeque::new(),
            max_history: self.max_history,
            metrics: StateMetrics::new(),
        };
        proof {
            assert(transitions_view(machine.history@) =~= Seq::<TransitionView<S>>::empty());
        }
        Ok(machine)
    }
}

impl<S: Copy + Eq> Default for StateMachineBuilder<S> {
    fn default() -> (b: StateMachineBuilder<S>)
        ensures
            b@ == BuilderView::<S>::fresh(),
    {
        StateMachineBuilder::new()
    }
}

/// The history never outgrows its bound: accepting a transition from the
/// current state keeps a well-formed machine well-formed. Below capacity the
/// history grows by the new record; at capacity it keeps its length, every
/// record moves one place towards the front, the oldest is gone and the new
/// one is last.
pub proof fn lemma_history_bounded_fifo<S>(m: MachineView<S>, entry: TransitionView<S>)
    requires
        m.wf(),
        entry.from == m.current,
    ensures
        m.accept(entry).wf(),
        m.accept(entry).history.last() == entry,
        m.history.len() < m.max_history ==> m.accept(entry).history == m.history.push(entry),
        m.history.len() == m.max_history ==> {
            &&& m.accept(entry).history.len() == m.max_history
            &&& forall|i: int|
                0 <= i < m.max_history - 1 ==> m.accept(entry).history[i] == m.history[i + 1]
        },
{
    lemma_accept_keeps_linked(m, entry);
}

/// A record that starts in the current state continues the path of the
/// history.
pub proof fn lemma_accept_keeps_linked<S>(m: MachineView<S>, entry: TransitionView<S>)
    requires
        m.linked(),
        entry.from == m.current,
    ensures
        m.accept(entry).linked(),
{
    let after = m.accept(entry).history;
    if m.history.len() > 0 && m.history.len() >= m.max_history {
        assert forall|i: int| 0 <= i < after.len() - 1 implies (#[trigger] after[i]).to == after[i
            + 1].from by {
            assert(after[i] == m.history[i + 1]);
            if i + 1 < after.len() - 1 {
                assert(after[i + 1] == m.history[i + 2]);
            } else {
                assert(m.history[i + 1] == m.history.last());
            }
        }
    } else {
        assert forall|i: int| 0 <= i < after.len() - 1 implies (#[trigger] after[i]).to == after[i
            + 1].from by {
            assert(after[i] == m.history[i]);
            if i + 1 < after.len() - 1 {
                assert(after[i + 1] == m.history[i + 1]);
            } else {
                assert(m.history[i] == m.history.last());
            }
        }
    }
}

/// A rejected transition leaves the current state, the graph and the history
/// as they were, and moves the counter of rejected transitions by exactly one.
pub proof fn lemma_reject_changes_only_counter<S>(m: MachineView<S>)
    ensures
        m.reject().current == m.current,
        m.reject().graph == m.graph,
        m.reject().history == m.history,
        m.reject().max_history == m.max_history,
        m.reject().metrics.transitions_count == m.metrics.transitions_count,
        m.metrics.failed_transitions < u64::MAX ==> m.reject().metrics.failed_transitions
            == m.metrics.failed_transitions + 1,
{
}

/// Of several attempts at the same transition only the first succeeds, where
/// the target has no edge to itself: once the machine has accepted the
/// transition to `entry.to`, it allows that target no longer, and a rejected
/// attempt does not change that. Attempts that come in at the same time are
/// made one after the other by whoever shares the machine.
pub proof fn lemma_only_first_attempt_succeeds<S>(m: MachineView<S>, entry: TransitionView<S>)
    requires
        m.allows(entry.to),
        !m.graph.contains((entry.to, entry.to)),
    ensures
        !m.accept(entry).allows(entry.to),
        !m.accept(entry).reject().allows(entry.to),
        m.accept(entry).reject().current == entry.to,
{
}

/// A transition to the current state along a registered self-loop can be
/// repeated for ever: after it the machine is in the same state, the loop is
/// still allowed, and the history is still within its bound.
pub proof fn lemma_self_loop_repeats<S>(m: MachineView<S>, entry: TransitionView<S>)
    requires
        m.wf(),
        m.allows(m.current),
        entry.from == m.current,
        entry.to == m.current,
    ensures
        m.accept(entry).current == m.current,
        m.accept(entry).allows(m.current),
        m.accept(entry).wf(),
        m.accept(entry).history.len() <= m.max_history,
{
    lemma_accept_keeps_linked(m, entry);
}

/// The smaller of two numbers.
pub open spec fn at_most(a: nat, b: nat) -> nat {
    if a <= b {
        a
    } else {
        b
    }
}

/// Any number of transitions to the current state along a registered
/// self-loop all succeed: after `entries.len()` attempts the machine is in
/// the same state with the same graph, the counter of accepted transitions
/// has moved by that number and the counter of rejected ones not at all, and
/// the history has grown by that number but not beyond its bound.
pub proof fn lemma_self_loop_many_times<S>(m: MachineView<S>, entries: Seq<TransitionView<S>>)
    requires
        m.wf(),
        m.allows(m.current),
        forall|i: int|
            0 <= i < entries.len() ==> (#[trigger] entries[i]).from == m.current && entries[i].to
                == m.current,
    ensures
        m.attempts(entries).wf(),
        m.attempts(entries).current == m.current,
        m.attempts(entries).graph == m.graph,
        m.attempts(entries).max_history == m.max_history,
        m.attempts(entries).history.len() == at_most(
            m.history.len() + entries.len(),
            m.max_history,
        ),
        m.attempts(entries).metrics.transitions_count == advanced(
            m.metrics.transitions_count,
            entries.len(),
        ),
        m.attempts(entries).metrics.failed_transitions == m.metrics.failed_transitions,
        m.attempts(entries).metrics.average_transition_time == m.metrics.average_transition_time,
    decreases entries.len(),
{
    if entries.len() > 0 {
        let earlier = entries.drop_last();
        assert forall|i: int| 0 <= i < earlier.len() implies (#[trigger] earlier[i]).from
            == m.current && earlier[i].to == m.current by {
            assert(earlier[i] == entries[i]);
        }
        lemma_self_loop_many_times(m, earlier);
        let before = m.attempts(earlier);
        assert(before.allows(entries.last().to));
        lemma_accept_keeps_linked(before, entries.last());
        lemma_advanced_step(m.metrics.transitions_count, earlier.len());
    } else {
        lemma_advanced_step(m.metrics.transitions_count, 0);
    }
}

/// Of any number of attempts at a transition whose target has no edge to
/// itself, exactly the first succeeds: after them the machine is in the
/// target, its history has taken up the record of the first attempt and no
/// other, the counter of accepted transitions has moved by one and the
/// counter of rejected ones by the number of the other attempts.
pub proof fn lemma_one_of_many_attempts_succeeds<S>(
    m: MachineView<S>,
    target: S,
    entries: Seq<TransitionView<S>>,
)
    requires
        m.allows(target),
        !m.graph.contains((target, target)),
        entries.len() >= 1,
        forall|i: int| 0 <= i < entries.len() ==> (#[trigger] entries[i]).to == target,
    ensures
        m.attempts(entries).current == target,
        m.attempts(entries).graph == m.graph,
        m.attempts(entries).history == m.remembered(entries[0]),
        m.attempts(entries).metrics.transitions_count == bump(m.metrics.transitions_count),
        m.attempts(entries).metrics.failed_transitions == advanced(
            m.metrics.failed_transitions,
            (entries.len() - 1) as nat,
        ),
    decreases entries.len(),
{
    let earlier = entries.drop_last();
    if entries.len() == 1 {
        assert(earlier.len() == 0);
        assert(m.attempts(earlier) == m);
        assert(entries.last() == entries[0]);
        lemma_advanced_step(m.metrics.failed_transitions, 0);
    } else {
        assert forall|i: int| 0 <= i < earlier.len() implies (#[trigger] earlier[i]).to
            == target by {
            assert(earlier[i] == entries[i]);
        }
        lemma_one_of_many_attempts_succeeds(m, target, earlier);
        assert(earlier[0] == entries[0]);
        let before = m.attempts(earlier);
        assert(!before.allows(entries.last().to));
        lemma_advanced_step(m.metrics.failed_transitions, (earlier.len() - 1) as nat);
    }
}

} // verus!
