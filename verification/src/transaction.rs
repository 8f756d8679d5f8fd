//! Two-phase, rollback-capable operations across resources: what a
//! transaction declares, the locks it takes, and the coordinator that drives
//! it from `Initial` to one of its final states.

use vstd::prelude::*;
use vstd::laws_eq::obeys_concrete_eq;
use std::collections::HashMap;
use crate::capture_error::{
    CaptureError, CaptureErrorKind, CaptureErrorView, ConfigErrorKind, ResourceErrorKind,
    RuntimeErrorKind, text_of,
};
use crate::resources::{BufferMemoryType, InterfaceConfiguration, SessionAction};
use crate::state_machine::{MachineView, StateMachine, bump, fold_average, folded_average};
use crate::state_recovery::{entries_view, has_entry, is_first_entry, state_in};
use crate::state_validator::{
    ResultView, StateValidator, ValidationRule, ValidatorView, missing_required, permits,
    transition_permitted, valid_run,
};
use vstd::string::StringExecFns;
use crate::text::{
    bytes_at_most, bytes_before, lemma_before_total, lemma_before_transitive, numbered,
    numbered_text, text_before,
};
use vstd::utf8::encode_utf8;
use vstd::string::StringSliceAdditionalSpecFns;
use crate::time::{Duration, Timestamp, NANOS_PER_SEC};

verus! {

/// The state of a transaction.
#[derive(Clone, Copy, Debug, Eq, Hash)]
pub enum TransactionState {
    Initial,
    Preparing,
    Prepared,
    Committing,
    Committed,
    RollingBack,
    RolledBack,
    Failed,
    TimedOut,
}

impl PartialEq for TransactionState {
    fn eq(&self, other: &Self) -> (same: bool) {
        match (self, other) {
            (TransactionState::Initial, TransactionState::Initial) => true,
            (TransactionState::Preparing, TransactionState::Preparing) => true,
            (TransactionState::Prepared, TransactionState::Prepared) => true,
            (TransactionState::Committing, TransactionState::Committing) => true,
            (TransactionState::Committed, TransactionState::Committed) => true,
            (TransactionState::RollingBack, TransactionState::RollingBack) => true,
            (TransactionState::RolledBack, TransactionState::RolledBack) => true,
            (TransactionState::Failed, TransactionState::Failed) => true,
            (TransactionState::TimedOut, TransactionState::TimedOut) => true,
            _ => false,
        }
    }
}

impl vstd::std_specs::cmp::PartialEqSpecImpl for TransactionState {
    open spec fn obeys_eq_spec() -> bool {
        true
    }

    open spec fn eq_spec(&self, other: &Self) -> bool {
        *self == *other
    }
}

/// Transaction states are compared structurally, so what a state machine
/// promises for such states holds of the machine of a transaction.
pub proof fn lemma_transaction_states_compare_structurally()
    ensures
        obeys_concrete_eq::<TransactionState>(),
{
    reveal(obeys_concrete_eq);
}

impl TransactionState {
    /// Whether the state is final: nothing leads out of it.
    pub open spec fn is_final(self) -> bool {
        self is Committed || self is RolledBack || self is Failed || self is TimedOut
    }

    /// Whether the state is final.
    pub fn finished(&self) -> (done: bool)
        ensures
            done == self.is_final(),
    {
        match self {
            TransactionState::Committed => true,
            TransactionState::RolledBack => true,
            TransactionState::Failed => true,
            TransactionState::TimedOut => true,
            _ => false,
        }
    }
}

/// Whether a transaction may go from `from` to `to`.
///
/// The main path leads from `Initial` through `Preparing`, `Prepared` and
/// `Committing` to `Committed`. A rollback can begin in any state of the main
/// path before `Committed` and ends in `RolledBack`. Any state that is not
/// final can fail or time out.
pub open spec fn may_follow(from: TransactionState, to: TransactionState) -> bool {
    match (from, to) {
        (TransactionState::Initial, TransactionState::Preparing) => true,
        (TransactionState::Preparing, TransactionState::Prepared) => true,
        (TransactionState::Prepared, TransactionState::Committing) => true,
        (TransactionState::Committing, TransactionState::Committed) => true,
        (TransactionState::RollingBack, TransactionState::RolledBack) => true,
        (_, TransactionState::RollingBack) => !from.is_final() && !(from is RollingBack),
        (_, TransactionState::Failed) => !from.is_final(),
        (_, TransactionState::TimedOut) => !from.is_final(),
        _ => false,
    }
}

/// The transition graph of a transaction.
pub open spec fn transaction_graph() -> Set<(TransactionState, TransactionState)> {
    Set::new(|e: (TransactionState, TransactionState)| may_follow(e.0, e.1))
}

/// Transaction isolation levels.
#[derive(Clone, Copy, Debug, PartialEq, Eq, Structural)]
pub enum IsolationLevel {
    ReadUncommitted,
    ReadCommitted,
    RepeatableRead,
    Serializable,
}

/// Transaction propagation behaviors.
#[derive(Clone, Copy, Debug, PartialEq, Eq, Structural)]
pub enum PropagationBehavior {
    Required,
    RequiresNew,
    Supports,
    NotSupported,
    Mandatory,
    Never,
}

/// A recovery policy of the caller's own: it says whether a transaction whose
/// commit has failed `attempts` times is to be tried again.
pub trait CustomRecoveryPolicy: Send + Sync {
    fn should_retry(&self, transaction_id: &str, attempts: u32) -> bool;
}

/// Recovery policies for failed transactions.
pub enum RecoveryPolicy {
    /// Try the commit again, up to `max_attempts` times, after `delay`.
    Retry { max_attempts: u32, delay: Duration },
    /// Roll back at once.
    Rollback,
    /// Ask the policy whether to try again or to roll back.
    Custom(Box<dyn CustomRecoveryPolicy>),
}

/// Configuration for transaction behavior.
pub struct TransactionConfig {
    pub timeout: Duration,
    pub max_retries: u32,
    pub isolation_level: IsolationLevel,
    pub propagation_behavior: PropagationBehavior,
    pub recovery_policy: RecoveryPolicy,
}

impl Default for TransactionConfig {
    /// Thirty seconds, three retries, `ReadCommitted`, `Required`, and
    /// rollback on failure.
    fn default() -> (c: TransactionConfig)
        ensures
            c.timeout@ == 30 * NANOS_PER_SEC,
            c.max_retries == 3,
            c.isolation_level == IsolationLevel::ReadCommitted,
            c.propagation_behavior == PropagationBehavior::Required,
            c.recovery_policy is Rollback,
    {
        TransactionConfig {
            timeout: Duration::from_secs(30),
            max_retries: 3,
            isolation_level: IsolationLevel::ReadCommitted,
            propagation_behavior: PropagationBehavior::Required,
            recovery_policy: RecoveryPolicy::Rollback,
        }
    }
}

/// Builder for `TransactionConfig`.
pub struct TransactionConfigBuilder {
    timeout: Option<Duration>,
    max_retries: Option<u32>,
    isolation_level: Option<IsolationLevel>,
    propagation_behavior: Option<PropagationBehavior>,
    recovery_policy: Option<RecoveryPolicy>,
}

impl TransactionConfigBuilder {
    /// The timeout that was set, if any.
    pub closed spec fn timeout_set(&self) -> Option<Duration> {
        self.timeout
    }

    /// The number of retries that was set, if any.
    pub closed spec fn max_retries_set(&self) -> Option<u32> {
        self.max_retries
    }

    /// The isolation level that was set, if any.
    pub closed spec fn isolation_level_set(&self) -> Option<IsolationLevel> {
        self.isolation_level
    }

    /// The propagation behavior that was set, if any.
    pub closed spec fn propagation_behavior_set(&self) -> Option<PropagationBehavior> {
        self.propagation_behavior
    }

    /// The recovery policy that was set, if any.
    pub closed spec fn recovery_policy_set(&self) -> Option<RecoveryPolicy> {
        self.recovery_policy
    }

    /// A builder that has been told nothing.
    pub fn new() -> (b: TransactionConfigBuilder)
        ensures
            b.timeout_set().is_none(),
            b.max_retries_set().is_none(),
            b.isolation_level_set().is_none(),
            b.propagation_behavior_set().is_none(),
            b.recovery_policy_set().is_none(),
    {
        TransactionConfigBuilder {
            timeout: None,
            max_retries: None,
            isolation_level: None,
            propagation_behavior: None,
            recovery_policy: None,
        }
    }

    /// Sets the timeout.
    pub fn timeout(self, timeout: Duration) -> (b: TransactionConfigBuilder)
        ensures
            b.timeout_set() == Some(timeout),
            b.max_retries_set() == self.max_retries_set(),
            b.isolation_level_set() == self.isolation_level_set(),
            b.propagation_behavior_set() == self.propagation_behavior_set(),
            b.recovery_policy_set() == self.recovery_policy_set(),
    {
        let mut b = self;
        b.timeout = Some(timeout);
        b
    }

    /// Sets the number of retries.
    pub fn max_retries(self, retries: u32) -> (b: TransactionConfigBuilder)
        ensures
            b.timeout_set() == self.timeout_set(),
            b.max_retries_set() == Some(retries),
            b.isolation_level_set() == self.isolation_level_set(),
            b.propagation_behavior_set() == self.propagation_behavior_set(),
            b.recovery_policy_set() == self.recovery_policy_set(),
    {
        let mut b = self;
        b.max_retries = Some(retries);
        b
    }

    /// Sets the isolation level.
    pub fn isolation_level(self, level: IsolationLevel) -> (b: TransactionConfigBuilder)
        ensures
            b.timeout_set() == self.timeout_set(),
            b.max_retries_set() == self.max_retries_set(),
            b.isolation_level_set() == Some(level),
            b.propagation_behavior_set() == self.propagation_behavior_set(),
            b.recovery_policy_set() == self.recovery_policy_set(),
    {
        let mut b = self;
        b.isolation_level = Some(level);
        b
    }

    /// Sets the propagation behavior.
    pub fn propagation_behavior(self, behavior: PropagationBehavior) -> (b:
        TransactionConfigBuilder)
        ensures
            b.timeout_set() == self.timeout_set(),
            b.max_retries_set() == self.max_retries_set(),
            b.isolation_level_set() == self.isolation_level_set(),
            b.propagation_behavior_set() == Some(behavior),
            b.recovery_policy_set() == self.recovery_policy_set(),
    {
        let mut b = self;
        b.propagation_behavior = Some(behavior);
        b
    }

    /// Sets the recovery policy.
    pub fn recovery_policy(self, policy: RecoveryPolicy) -> (b: TransactionConfigBuilder)
        ensures
            b.timeout_set() == self.timeout_set(),
            b.max_retries_set() == self.max_retries_set(),
            b.isolation_level_set() == self.isolation_level_set(),
            b.propagation_behavior_set() == self.propagation_behavior_set(),
            b.recovery_policy_set() == Some(policy),
    {
        let mut b = self;
        b.recovery_policy = Some(policy);
        b
    }

    /// What is missing, if anything. Every field is required and none is
    /// filled in: the timeout is asked for first, then the number of retries,
    /// the isolation level, the propagation behavior and the recovery policy.
    pub open spec fn complaint(&self) -> Option<Seq<char>> {
        if self.timeout_set().is_none() {
            Some("timeout is required"@)
        } else if self.max_retries_set().is_none() {
            Some("max_retries is required"@)
        } else if self.isolation_level_set().is_none() {
            Some("isolation_level is required"@)
        } else if self.propagation_behavior_set().is_none() {
            Some("propagation_behavior is required"@)
        } else if self.recovery_policy_set().is_none() {
            Some("recovery_policy is required"@)
        } else {
            None
        }
    }

    /// Builds the configuration of exactly the values that were set, or says
    /// which required field is missing.
    pub fn build(self) -> (r: Result<TransactionConfig, CaptureError>)
        ensures
            self.complaint() matches Some(message) ==> (r matches Err(e) && e@
                == missing_required(message)),
            self.complaint().is_none() ==> (r matches Ok(c) && {
                &&& Some(c.timeout) == self.timeout_set()
                &&& Some(c.max_retries) == self.max_retries_set()
                &&& Some(c.isolation_level) == self.isolation_level_set()
                &&& Some(c.propagation_behavior) == self.propagation_behavior_set()
                &&& Some(c.recovery_policy) == self.recovery_policy_set()
            }),
    {
        let timeout = match self.timeout {
            Some(timeout) => timeout,
            None => {
                let e = CaptureError::new(
                    CaptureErrorKind::Configuration(ConfigErrorKind::MissingRequired),
                    "timeout is required",
                );
                return Err(*e);
            },
        };
        let max_retries = match self.max_retries {
            Some(max_retries) => max_retries,
            None => {
                let e = CaptureError::new(
                    CaptureErrorKind::Configuration(ConfigErrorKind::MissingRequired),
                    "max_retries is required",
                );
                return Err(*e);
            },
        };
        let isolation_level = match self.isolation_level {
            Some(isolation_level) => isolation_level,
            None => {
                let e = CaptureError::new(
                    CaptureErrorKind::Configuration(ConfigErrorKind::MissingRequired),
                    "isolation_level is required",
                );
                return Err(*e);
            },
        };
        let propagation_behavior = match self.propagation_behavior {
            Some(propagation_behavior) => propagation_behavior,
            None => {
                let e = CaptureError::new(
                    CaptureErrorKind::Configuration(ConfigErrorKind::MissingRequired),
                    "propagation_behavior is required",
                );
                return Err(*e);
            },
        };
        let recovery_policy = match self.recovery_policy {
            Some(recovery_policy) => recovery_policy,
            None => {
                let e = CaptureError::new(
                    CaptureErrorKind::Configuration(ConfigErrorKind::MissingRequired),
                    "recovery_policy is required",
                );
                return Err(*e);
            },
        };
        Ok(
            TransactionConfig {
                timeout,
                max_retries,
                isolation_level,
                propagation_behavior,
                recovery_policy,
            },
        )
    }
}

impl Default for TransactionConfigBuilder {
    fn default() -> (b: TransactionConfigBuilder)
        ensures
            b.timeout_set().is_none(),
            b.max_retries_set().is_none(),
            b.isolation_level_set().is_none(),
            b.propagation_behavior_set().is_none(),
            b.recovery_policy_set().is_none(),
    {
        TransactionConfigBuilder::new()
    }
}

/// The kinds of resources that a transaction can touch.
#[derive(Clone, Copy, Debug, PartialEq, Eq, Structural)]
pub enum ResourceType {
    Buffer,
    Interface,
    Session,
    StateRecord,
}

/// What has become of a resource inside a transaction.
#[derive(Clone, Copy, Debug, PartialEq, Eq, Structural)]
pub enum ResourceState {
    Allocated,
    InUse,
    Released,
    Failed,
}

/// The kinds of locks.
#[derive(Clone, Copy, Debug, PartialEq, Eq, Structural)]
pub enum LockType {
    /// For reading; goes together with other shared and intent locks.
    Shared,
    /// For writing; goes together with no lock of another transaction.
    Exclusive,
    /// For an operation that is planned and not yet executed; goes together
    /// with shared and intent locks.
    Intent,
}

/// Operations that can be part of a transaction.
#[derive(Clone, Debug)]
pub enum TransactionOperation {
    BufferAllocation { size: usize, memory_type: BufferMemoryType },
    InterfaceConfiguration { interface_id: String, config: InterfaceConfiguration },
    SessionManagement { action: SessionAction, session_id: Option<String> },
    StateSync { entity_id: String, new_state: String },
}

/// A resource managed within a transaction, with the locks held on it.
#[derive(Debug)]
pub struct TransactionResource {
    pub resource_id: String,
    pub resource_type: ResourceType,
    pub state: ResourceState,
    pub locks: Vec<LockType>,
}

impl TransactionResource {
    /// Puts the resource into the state. Nothing else of it changes.
    fn enter(&mut self, state: ResourceState)
        ensures
            *final(self) == (TransactionResource { state, ..*old(self) }),
    {
        self.state = state;
    }
}

/// What happened to a transaction.
#[derive(Clone, Debug, PartialEq, Eq)]
pub enum TransactionEventType {
    Started,
    Prepared,
    Committed,
    RolledBack,
    Failed(String),
    LockAcquired(String),
    LockReleased(String),
    RecoveryInitiated,
    RecoveryCompleted,
}

/// An event in the life of a transaction.
#[derive(Clone, Debug)]
pub struct TransactionEvent {
    pub transaction_id: String,
    pub event_type: TransactionEventType,
    pub timestamp: Timestamp,
    pub metadata: HashMap<String, String>,
}

/// The rules by which transitions of transactions are validated.
pub struct TransactionValidation {
    pub rules: Vec<ValidationRule<TransactionState>>,
    pub timeout: Duration,
    pub fail_fast: bool,
}

/// What a `LockRequest` holds, as plain values.
pub struct RequestView {
    pub resource_id: Seq<char>,
    pub resource_type: ResourceType,
    pub lock: LockType,
}

/// A lock on a resource, as a transaction wants it or holds it.
#[derive(Clone, Debug)]
pub struct LockRequest {
    pub resource_id: String,
    pub resource_type: ResourceType,
    pub lock: LockType,
}

impl View for LockRequest {
    type V = RequestView;

    open spec fn view(&self) -> RequestView {
        RequestView {
            resource_id: self.resource_id@,
            resource_type: self.resource_type,
            lock: self.lock,
        }
    }
}

/// The requests of a list, as plain values.
pub open spec fn requests_view(requests: Seq<LockRequest>) -> Seq<RequestView> {
    requests.map_values(|r: LockRequest| r@)
}

/// The id under which all buffers are locked together.
pub open spec fn buffer_pool() -> Seq<char> {
    "buffer-pool"@
}

/// The id under which the making of new sessions is locked.
pub open spec fn session_pool() -> Seq<char> {
    "session-pool"@
}

/// The lock that an operation asks for before the isolation level is taken
/// into account: an operation on a named interface, session or state record
/// writes and asks for an exclusive lock; an operation that only plans to
/// make something new, a buffer or a session, announces its intent.
pub open spec fn base_lock(op: TransactionOperation) -> LockType {
    match op {
        TransactionOperation::BufferAllocation { .. } => LockType::Intent,
        TransactionOperation::InterfaceConfiguration { .. } => LockType::Exclusive,
        TransactionOperation::SessionManagement { session_id, .. } => if session_id.is_some() {
            LockType::Exclusive
        } else {
            LockType::Intent
        },
        TransactionOperation::StateSync { .. } => LockType::Exclusive,
    }
}

/// The lock that is taken for a base lock under an isolation level. The
/// higher the level, the broader the lock: under `Serializable` every lock is
/// exclusive; under `ReadUncommitted` an intent is only a shared lock;
/// between the two the base lock is taken as it is.
pub open spec fn lock_under(base: LockType, isolation: IsolationLevel) -> LockType {
    match isolation {
        IsolationLevel::Serializable => LockType::Exclusive,
        IsolationLevel::ReadUncommitted => if base is Intent {
            LockType::Shared
        } else {
            base
        },
        _ => base,
    }
}

/// The resource that an operation targets and the lock it asks for under the
/// isolation level.
pub open spec fn wanted(op: TransactionOperation, isolation: IsolationLevel) -> RequestView {
    match op {
        TransactionOperation::BufferAllocation { .. } => RequestView {
            resource_id: buffer_pool(),
            resource_type: ResourceType::Buffer,
            lock: lock_under(base_lock(op), isolation),
        },
        TransactionOperation::InterfaceConfiguration { interface_id, .. } => RequestView {
            resource_id: interface_id@,
            resource_type: ResourceType::Interface,
            lock: lock_under(base_lock(op), isolation),
        },
        TransactionOperation::SessionManagement { session_id, .. } => RequestView {
            resource_id: match session_id {
                Some(id) => id@,
                None => session_pool(),
            },
            resource_type: ResourceType::Session,
            lock: lock_under(base_lock(op), isolation),
        },
        TransactionOperation::StateSync { entity_id, .. } => RequestView {
            resource_id: entity_id@,
            resource_type: ResourceType::StateRecord,
            lock: lock_under(base_lock(op), isolation),
        },
    }
}

/// The requests of the operations, one for each, in the declared order.
pub open spec fn wanted_all(ops: Seq<TransactionOperation>, isolation: IsolationLevel) -> Seq<
    RequestView,
> {
    ops.map_values(|op: TransactionOperation| wanted(op, isolation))
}

/// Takes the lock for a base lock under an isolation level.
pub fn adjust_lock(base: LockType, isolation: IsolationLevel) -> (lock: LockType)
    ensures
        lock == lock_under(base, isolation),
{
    match isolation {
        IsolationLevel::Serializable => LockType::Exclusive,
        IsolationLevel::ReadUncommitted => match base {
            LockType::Intent => LockType::Shared,
            _ => base,
        },
        _ => base,
    }
}

/// The resource that an operation targets and the lock it asks for.
pub fn request_for(op: &TransactionOperation, isolation: IsolationLevel) -> (request: LockRequest)
    ensures
        request@ == wanted(*op, isolation),
{
    match op {
        TransactionOperation::BufferAllocation { .. } => LockRequest {
            resource_id: "buffer-pool".to_owned(),
            resource_type: ResourceType::Buffer,
            lock: adjust_lock(LockType::Intent, isolation),
        },
        TransactionOperation::InterfaceConfiguration { interface_id, .. } => LockRequest {
            resource_id: interface_id.clone(),
            resource_type: ResourceType::Interface,
            lock: adjust_lock(LockType::Exclusive, isolation),
        },
        TransactionOperation::SessionManagement { session_id, .. } => match session_id {
            Some(id) => LockRequest {
                resource_id: id.clone(),
                resource_type: ResourceType::Session,
                lock: adjust_lock(LockType::Exclusive, isolation),
            },
            None => LockRequest {
                resource_id: "session-pool".to_owned(),
                resource_type: ResourceType::Session,
                lock: adjust_lock(LockType::Intent, isolation),
            },
        },
        TransactionOperation::StateSync { entity_id, .. } => LockRequest {
            resource_id: entity_id.clone(),
            resource_type: ResourceType::StateRecord,
            lock: adjust_lock(LockType::Exclusive, isolation),
        },
    }
}

/// Whether the resource id `a` comes before `b` or is `b`, in the order of
/// the bytes of their text.
pub open spec fn id_at_most(a: Seq<char>, b: Seq<char>) -> bool {
    bytes_at_most(encode_utf8(a), encode_utf8(b))
}

/// Whether the requests stand in ascending order of their resource ids: the
/// order in which locks are taken.
pub open spec fn in_lock_order(requests: Seq<RequestView>) -> bool {
    forall|i: int, j: int|
        0 <= i <= j < requests.len() ==> id_at_most(
            (#[trigger] requests[i]).resource_id,
            (#[trigger] requests[j]).resource_id,
        )
}

/// Puts the requests into the order in which locks are taken: ascending by
/// resource id. Requests for the same resource keep their order.
pub fn in_order(requests: Vec<LockRequest>) -> (sorted: Vec<LockRequest>)
    ensures
        in_lock_order(requests_view(sorted@)),
        requests_view(sorted@).to_multiset() == requests_view(requests@).to_multiset(),
        sorted@.len() == requests@.len(),
{
    broadcast use vstd::seq_lib::to_multiset_insert;

    let mut sorted: Vec<LockRequest> = Vec::new();
    let mut i: usize = 0;
    proof {
        assert(requests_view(requests@).take(0) =~= Seq::<RequestView>::empty());
        assert(requests_view(sorted@) =~= Seq::<RequestView>::empty());
    }
    while i < requests.len()
        invariant
            i <= requests.len(),
            sorted@.len() == i,
            in_lock_order(requests_view(sorted@)),
            requests_view(sorted@).to_multiset() == requests_view(requests@).take(
                i as int,
            ).to_multiset(),
        decreases requests.len() - i,
    {
        let next = requests[i].clone_request();
        let ghost added = next@;
        let ghost before = requests_view(sorted@);
        let mut k: usize = 0;
        while k < sorted.len() && !text_before(
            next.resource_id.as_str(),
            sorted[k].resource_id.as_str(),
        )
            invariant
                k <= sorted.len(),
                before == requests_view(sorted@),
                added == next@,
                forall|j: int|
                    0 <= j < k ==> id_at_most((#[trigger] before[j]).resource_id, added.resource_id),
            decreases sorted.len() - k,
        {
            proof {
                lemma_before_total(
                    encode_utf8(added.resource_id),
                    encode_utf8(before[k as int].resource_id),
                );
            }
            k = k + 1;
        }
        sorted.insert(k, next);
        proof {
            let after = requests_view(sorted@);
            assert(after =~= before.insert(k as int, added));
            let all = requests_view(requests@);
            assert(all.take(i + 1) =~= all.take(i as int).push(added));
            assert(all[i as int] == added);
            vstd::seq_lib::to_multiset_build(all.take(i as int), added);
            vstd::seq_lib::to_multiset_insert(before, k as int, added);
            assert(after.to_multiset() == before.to_multiset().insert(added));
            assert(all.take(i + 1).to_multiset() == all.take(i as int).to_multiset().insert(added));
            assert(after.to_multiset() =~= all.take(i + 1).to_multiset());
            assert forall|a: int, b: int| 0 <= a <= b < after.len() implies id_at_most(
                (#[trigger] after[a]).resource_id,
                (#[trigger] after[b]).resource_id,
            ) by {
                let a2 = if a < k { a } else { a - 1 };
                let b2 = if b < k { b } else { b - 1 };
                if a != k {
                    assert(after[a] == before[a2]);
                }
                if b != k {
                    assert(after[b] == before[b2]);
                }
                if a == k && b > k {
                    assert(bytes_before(
                        encode_utf8(added.resource_id),
                        encode_utf8(before[k as int].resource_id),
                    ));
                    assert(id_at_most(before[k as int].resource_id, before[b2].resource_id));
                    if encode_utf8(before[k as int].resource_id) != encode_utf8(
                        before[b2].resource_id,
                    ) {
                        lemma_before_transitive(
                            encode_utf8(added.resource_id),
                            encode_utf8(before[k as int].resource_id),
                            encode_utf8(before[b2].resource_id),
                        );
                    }
                }
            }
        }
        i = i + 1;
    }
    proof {
        assert(requests_view(requests@).take(i as int) =~= requests_view(requests@));
    }
    sorted
}

impl LockRequest {
    /// A copy of this request.
    pub fn clone_request(&self) -> (copy: LockRequest)
        ensures
            copy@ == self@,
    {
        LockRequest {
            resource_id: self.resource_id.clone(),
            resource_type: self.resource_type,
            lock: self.lock,
        }
    }
}

/// What a `HeldLock` holds, as plain values.
pub struct HeldView {
    pub resource_id: Seq<char>,
    pub transaction_id: Seq<char>,
    pub lock: LockType,
}

/// A lock that a transaction holds on a resource.
#[derive(Clone, Debug)]
pub struct HeldLock {
    pub resource_id: String,
    pub transaction_id: String,
    pub lock: LockType,
}

impl View for HeldLock {
    type V = HeldView;

    open spec fn view(&self) -> HeldView {
        HeldView {
            resource_id: self.resource_id@,
            transaction_id: self.transaction_id@,
            lock: self.lock,
        }
    }
}

/// The locks of a table, as plain values.
pub open spec fn locks_view(locks: Seq<HeldLock>) -> Seq<HeldView> {
    locks.map_values(|l: HeldLock| l@)
}

/// Whether two locks of different transactions can be held on one resource
/// at a time: neither of them is exclusive.
pub open spec fn compatible(held: LockType, asked: LockType) -> bool {
    !(held is Exclusive) && !(asked is Exclusive)
}

/// Whether the held lock stands in the way of the request of `transaction`:
/// it is on the same resource, another transaction holds it, and the two
/// locks do not go together.
pub open spec fn stands_in_way(held: HeldView, transaction: Seq<char>, request: RequestView) -> bool {
    &&& held.resource_id == request.resource_id
    &&& held.transaction_id != transaction
    &&& !compatible(held.lock, request.lock)
}

/// Whether some lock of the table stands in the way of the request.
pub open spec fn contended(table: Seq<HeldView>, transaction: Seq<char>, request: RequestView) -> bool {
    exists|i: int| 0 <= i < table.len() && stands_in_way(#[trigger] table[i], transaction, request)
}

/// Whether some lock of the table stands in the way of the request.
pub fn is_contended(table: &Vec<HeldLock>, transaction: &String, request: &LockRequest) -> (busy:
    bool)
    ensures
        busy == contended(locks_view(table@), transaction@, request@),
{
    let mut i: usize = 0;
    while i < table.len()
        invariant
            i <= table.len(),
            forall|j: int|
                0 <= j < i ==> !stands_in_way(
                    #[trigger] locks_view(table@)[j],
                    transaction@,
                    request@,
                ),
        decreases table.len() - i,
    {
        let held = &table[i];
        let exclusive = match (held.lock, request.lock) {
            (LockType::Exclusive, _) => true,
            (_, LockType::Exclusive) => true,
            _ => false,
        };
        if exclusive && held.resource_id == request.resource_id && held.transaction_id
            != *transaction {
            assert(stands_in_way(locks_view(table@)[i as int], transaction@, request@));
            return true;
        }
        i = i + 1;
    }
    false
}

/// The locks that `transaction` holds once the requests are granted.
pub open spec fn granted_to(transaction: Seq<char>, requests: Seq<RequestView>) -> Seq<HeldView> {
    requests.map_values(
        |r: RequestView|
            HeldView { resource_id: r.resource_id, transaction_id: transaction, lock: r.lock },
    )
}

/// The locks of the table that `transaction` does not hold, in their order.
pub open spec fn without_holder(table: Seq<HeldView>, transaction: Seq<char>) -> Seq<HeldView>
    decreases table.len(),
{
    if table.len() == 0 {
        Seq::empty()
    } else if table.last().transaction_id == transaction {
        without_holder(table.drop_last(), transaction)
    } else {
        without_holder(table.drop_last(), transaction).push(table.last())
    }
}

/// No lock of `transaction` is left in a table from which its locks were
/// taken, and the locks of the others are all still there.
pub proof fn lemma_without_holder(table: Seq<HeldView>, transaction: Seq<char>)
    ensures
        forall|i: int|
            0 <= i < without_holder(table, transaction).len() ==> (#[trigger] without_holder(
                table,
                transaction,
            )[i]).transaction_id != transaction,
        forall|i: int|
            0 <= i < table.len() && (#[trigger] table[i]).transaction_id != transaction
                ==> without_holder(table, transaction).contains(table[i]),
        without_holder(table, transaction).len() <= table.len(),
    decreases table.len(),
{
    if table.len() > 0 {
        let rest = table.drop_last();
        lemma_without_holder(rest, transaction);
        let kept = without_holder(table, transaction);
        assert forall|i: int|
            0 <= i < table.len() && (#[trigger] table[i]).transaction_id
                != transaction implies kept.contains(table[i]) by {
            if i < table.len() - 1 {
                assert(rest[i] == table[i]);
                let j = choose|j: int|
                    0 <= j < without_holder(rest, transaction).len() && without_holder(
                        rest,
                        transaction,
                    )[j] == rest[i];
                assert(kept[j] == table[i]);
            } else {
                assert(kept[kept.len() - 1] == table[i]);
            }
        }
    }
}

/// A counter after one event less, which stops at zero.
pub open spec fn unbump(count: u64) -> u64 {
    if count == 0 {
        0
    } else {
        (count - 1) as u64
    }
}

/// What a `TransactionMetrics` holds, as plain values.
pub struct TxMetricsView {
    pub total_transactions: u64,
    pub active_transactions: u64,
    pub committed_transactions: u64,
    pub rolled_back_transactions: u64,
    pub failed_transactions: u64,
    pub average_duration_ms: u64,
    pub lock_contentions: u64,
}

impl TxMetricsView {
    /// Counters that have seen nothing.
    pub open spec fn zero() -> TxMetricsView {
        TxMetricsView {
            total_transactions: 0,
            active_transactions: 0,
            committed_transactions: 0,
            rolled_back_transactions: 0,
            failed_transactions: 0,
            average_duration_ms: 0,
            lock_contentions: 0,
        }
    }

    /// The counters after a transaction began.
    pub open spec fn begun(self) -> TxMetricsView {
        TxMetricsView {
            total_transactions: bump(self.total_transactions),
            active_transactions: bump(self.active_transactions),
            ..self
        }
    }

    /// The counters after a transaction was committed that took
    /// `duration_ms`.
    pub open spec fn committed(self, duration_ms: u64) -> TxMetricsView {
        TxMetricsView {
            committed_transactions: bump(self.committed_transactions),
            active_transactions: unbump(self.active_transactions),
            average_duration_ms: folded_average(
                self.average_duration_ms,
                duration_ms,
                self.committed_transactions,
            ),
            ..self
        }
    }

    /// The counters after a transaction was rolled back.
    pub open spec fn rolled_back(self) -> TxMetricsView {
        TxMetricsView {
            rolled_back_transactions: bump(self.rolled_back_transactions),
            active_transactions: unbump(self.active_transactions),
            ..self
        }
    }

    /// The counters after a transaction failed or timed out.
    pub open spec fn failed(self) -> TxMetricsView {
        TxMetricsView {
            failed_transactions: bump(self.failed_transactions),
            active_transactions: unbump(self.active_transactions),
            ..self
        }
    }

    /// The counters after a lock was refused for contention.
    pub open spec fn contention(self) -> TxMetricsView {
        TxMetricsView { lock_contentions: bump(self.lock_contentions), ..self }
    }
}

/// The counters of a coordinator.
#[derive(Clone, Copy, Debug)]
pub struct TransactionMetrics {
    total_transactions: u64,
    active_transactions: u64,
    committed_transactions: u64,
    rolled_back_transactions: u64,
    failed_transactions: u64,
    average_duration_ms: u64,
    lock_contentions: u64,
}

impl View for TransactionMetrics {
    type V = TxMetricsView;

    closed spec fn view(&self) -> TxMetricsView {
        TxMetricsView {
            total_transactions: self.total_transactions,
            active_transactions: self.active_transactions,
            committed_transactions: self.committed_transactions,
            rolled_back_transactions: self.rolled_back_transactions,
            failed_transactions: self.failed_transactions,
            average_duration_ms: self.average_duration_ms,
            lock_contentions: self.lock_contentions,
        }
    }
}

impl TransactionMetrics {
    /// Counters that have seen nothing.
    pub fn new() -> (m: TransactionMetrics)
        ensures
            m@ == TxMetricsView::zero(),
    {
        TransactionMetrics {
            total_transactions: 0,
            active_transactions: 0,
            committed_transactions: 0,
            rolled_back_transactions: 0,
            failed_transactions: 0,
            average_duration_ms: 0,
            lock_contentions: 0,
        }
    }

    /// Counts a transaction that began.
    pub fn record_begun(&mut self)
        ensures
            final(self)@ == old(self)@.begun(),
    {
        self.total_transactions = self.total_transactions.wrapping_add(1);
        self.active_transactions = self.active_transactions.wrapping_add(1);
    }

    /// Counts a transaction that was committed after `duration_ms`.
    pub fn record_committed(&mut self, duration_ms: u64)
        ensures
            final(self)@ == old(self)@.committed(duration_ms),
    {
        let seen = self.committed_transactions;
        self.committed_transactions = seen.wrapping_add(1);
        self.active_transactions = self.active_transactions.saturating_sub(1);
        self.average_duration_ms = fold_average(self.average_duration_ms, duration_ms, seen);
    }

    /// Counts a transaction that was rolled back.
    pub fn record_rolled_back(&mut self)
        ensures
            final(self)@ == old(self)@.rolled_back(),
    {
        self.rolled_back_transactions = self.rolled_back_transactions.wrapping_add(1);
        self.active_transactions = self.active_transactions.saturating_sub(1);
    }

    /// Counts a transaction that failed or timed out.
    pub fn record_failed(&mut self)
        ensures
            final(self)@ == old(self)@.failed(),
    {
        self.failed_transactions = self.failed_transactions.wrapping_add(1);
        self.active_transactions = self.active_transactions.saturating_sub(1);
    }

    /// Counts a lock that was refused for contention.
    pub fn record_contention(&mut self)
        ensures
            final(self)@ == old(self)@.contention(),
    {
        self.lock_contentions = self.lock_contentions.wrapping_add(1);
    }

    /// The number of transactions begun.
    pub fn total_transactions(&self) -> (n: u64)
        ensures
            n == self@.total_transactions,
    {
        self.total_transactions
    }

    /// The number of transactions that are under way.
    pub fn active_transactions(&self) -> (n: u64)
        ensures
            n == self@.active_transactions,
    {
        self.active_transactions
    }

    /// The number of transactions committed.
    pub fn committed_transactions(&self) -> (n: u64)
        ensures
            n == self@.committed_transactions,
    {
        self.committed_transactions
    }

    /// The number of transactions rolled back.
    pub fn rolled_back_transactions(&self) -> (n: u64)
        ensures
            n == self@.rolled_back_transactions,
    {
        self.rolled_back_transactions
    }

    /// The number of transactions that failed or timed out.
    pub fn failed_transactions(&self) -> (n: u64)
        ensures
            n == self@.failed_transactions,
    {
        self.failed_transactions
    }

    /// The running average of the time a committed transaction took, in
    /// milliseconds.
    pub fn average_duration_ms(&self) -> (n: u64)
        ensures
            n == self@.average_duration_ms,
    {
        self.average_duration_ms
    }

    /// The number of locks refused for contention.
    pub fn lock_contentions(&self) -> (n: u64)
        ensures
            n == self@.lock_contentions,
    {
        self.lock_contentions
    }
}

impl Default for TransactionMetrics {
    fn default() -> (m: TransactionMetrics)
        ensures
            m@ == TxMetricsView::zero(),
    {
        TransactionMetrics::new()
    }
}

/// The request that a resource of a transaction stands for: the lock held on
/// it is the first of its locks.
pub open spec fn resource_request(resource: TransactionResource) -> RequestView {
    RequestView {
        resource_id: resource.resource_id@,
        resource_type: resource.resource_type,
        lock: if resource.locks@.len() > 0 {
            resource.locks@[0]
        } else {
            LockType::Shared
        },
    }
}

/// The requests that the resources of a transaction stand for.
pub open spec fn held_view(resources: Seq<TransactionResource>) -> Seq<RequestView> {
    resources.map_values(|r: TransactionResource| resource_request(r))
}

/// The states of the resources of a transaction.
pub open spec fn states_view(resources: Seq<TransactionResource>) -> Seq<ResourceState> {
    resources.map_values(|r: TransactionResource| r.state)
}

/// The locks held on each of the resources of a transaction.
pub open spec fn all_locks_view(resources: Seq<TransactionResource>) -> Seq<Seq<LockType>> {
    resources.map_values(|r: TransactionResource| r.locks@)
}

/// For each request, the one lock that it asks for.
pub open spec fn single_locks(requests: Seq<RequestView>) -> Seq<Seq<LockType>> {
    requests.map_values(|r: RequestView| seq![r.lock])
}

/// `n` resources that are all in the state `state`.
pub open spec fn uniform(n: nat, state: ResourceState) -> Seq<ResourceState> {
    Seq::new(n, |i: int| state)
}

/// The resource ids of the requests.
pub open spec fn ids_of(requests: Seq<RequestView>) -> Seq<Seq<char>> {
    requests.map_values(|r: RequestView| r.resource_id)
}

/// The mathematical model of a `TransactionContext`.
pub struct ContextView {
    pub id: Seq<char>,
    pub parent_id: Option<Seq<char>>,
    pub start_time: Timestamp,
    /// The state machine of the transaction.
    pub state: MachineView<TransactionState>,
    /// The declared operations, in their order.
    pub operations: Seq<TransactionOperation>,
    /// The free-form metadata of the transaction.
    pub metadata: Map<String, String>,
    pub isolation_level: IsolationLevel,
    pub propagation_behavior: PropagationBehavior,
    /// The time after which the transaction is timed out.
    pub timeout: Duration,
    pub max_retries: u32,
    /// What is done about a commit that fails.
    pub recovery_policy: RecoveryPolicy,
    /// The locks that the transaction holds, in the order in which it took
    /// them.
    pub held: Seq<RequestView>,
    /// The state of each resource that the transaction holds a lock on, in
    /// the same order: `Allocated` from `prepare` on, `InUse` while the
    /// transaction is committing. A resource whose lock is given back is
    /// released and leaves the list.
    pub resource_states: Seq<ResourceState>,
    /// The locks held on each of these resources, in the same order: the one
    /// lock that was granted for it.
    pub resource_locks: Seq<Seq<LockType>>,
    /// The ids of the resources whose locks the transaction gave back, in
    /// the order in which it gave them back.
    pub released: Seq<Seq<char>>,
    /// How many of the operations are applied.
    pub applied: nat,
    /// How many times the commit has failed.
    pub attempts: u32,
}

impl ContextView {
    /// What holds of every transaction: its machine has the transition graph
    /// of transactions, and no more operations are applied than declared.
    pub open spec fn wf(self) -> bool {
        &&& self.state.graph == transaction_graph()
        &&& self.state.wf()
        &&& self.applied <= self.operations.len()
    }

    /// The state the transaction is in.
    pub open spec fn current(self) -> TransactionState {
        self.state.current
    }
}

/// Core transaction context holding all transaction-related data.
pub struct TransactionContext {
    id: String,
    parent_id: Option<String>,
    start_time: Timestamp,
    state: StateMachine<TransactionState>,
    operations: Vec<TransactionOperation>,
    metadata: HashMap<String, String>,
    config: TransactionConfig,
    resources: Vec<TransactionResource>,
    released: Vec<String>,
    applied: usize,
    attempts: u32,
}

impl View for TransactionContext {
    type V = ContextView;

    closed spec fn view(&self) -> ContextView {
        ContextView {
            id: self.id@,
            parent_id: text_of(self.parent_id),
            start_time: self.start_time,
            state: self.state@,
            operations: self.operations@,
            metadata: self.metadata@,
            isolation_level: self.config.isolation_level,
            propagation_behavior: self.config.propagation_behavior,
            timeout: self.config.timeout,
            max_retries: self.config.max_retries,
            recovery_policy: self.config.recovery_policy,
            held: held_view(self.resources@),
            resource_states: states_view(self.resources@),
            resource_locks: all_locks_view(self.resources@),
            released: self.released@.map_values(|s: String| s@),
            applied: self.applied as nat,
            attempts: self.attempts,
        }
    }
}

impl TransactionContext {
    /// The id of the transaction.
    pub fn id(&self) -> (id: &String)
        ensures
            id@ == self@.id,
    {
        &self.id
    }

    /// The id of the enclosing transaction, if any.
    pub fn parent_id(&self) -> (id: Option<&String>)
        ensures
            id.is_some() == self@.parent_id.is_some(),
            id.is_some() ==> id.unwrap()@ == self@.parent_id.unwrap(),
    {
        self.parent_id.as_ref()
    }

    /// The time the transaction began.
    pub fn start_time(&self) -> (t: Timestamp)
        ensures
            t == self@.start_time,
    {
        self.start_time
    }

    /// The state the transaction is in.
    pub fn state(&self) -> (s: TransactionState)
        ensures
            s == self@.current(),
    {
        *self.state.current_state()
    }

    /// The state machine of the transaction.
    pub fn state_machine(&self) -> (m: &StateMachine<TransactionState>)
        ensures
            m@ == self@.state,
    {
        &self.state
    }

    /// The declared operations.
    pub fn operations(&self) -> (ops: &Vec<TransactionOperation>)
        ensures
            ops@ == self@.operations,
    {
        &self.operations
    }

    /// The metadata of the transaction.
    pub fn metadata(&self) -> (m: &HashMap<String, String>)
        ensures
            m@ == self@.metadata,
    {
        &self.metadata
    }

    /// The configuration of the transaction.
    pub fn config(&self) -> (c: &TransactionConfig)
        ensures
            c.isolation_level == self@.isolation_level,
            c.propagation_behavior == self@.propagation_behavior,
            c.timeout == self@.timeout,
            c.max_retries == self@.max_retries,
            c.recovery_policy == self@.recovery_policy,
    {
        &self.config
    }

    /// The resources that the transaction holds locks on, in the order in
    /// which it took them.
    pub fn resources(&self) -> (r: &Vec<TransactionResource>)
        ensures
            held_view(r@) == self@.held,
    {
        &self.resources
    }

    /// The ids of the resources whose locks the transaction gave back, in the
    /// order in which it gave them back.
    pub fn released(&self) -> (r: &Vec<String>)
        ensures
            r@.map_values(|s: String| s@) == self@.released,
    {
        &self.released
    }

    /// How many of the operations are applied.
    pub fn applied(&self) -> (n: usize)
        ensures
            n == self@.applied,
    {
        self.applied
    }

    /// How many times the commit has failed.
    pub fn attempts(&self) -> (n: u32)
        ensures
            n == self@.attempts,
    {
        self.attempts
    }

    /// The operation that is due: the first of the declared operations that
    /// is not applied yet. Operations are applied in their declared order.
    pub fn next_operation(&self) -> (due: Option<&TransactionOperation>)
        ensures
            self@.applied < self@.operations.len() ==> (due matches Some(operation) && *operation
                == self@.operations[self@.applied as int]),
            self@.applied >= self@.operations.len() ==> due.is_none(),
    {
        if self.applied < self.operations.len() {
            Some(&self.operations[self.applied])
        } else {
            None
        }
    }

    /// Puts every resource that the transaction holds a lock on into the
    /// state `InUse`.
    fn mark_in_use(&mut self)
        ensures
            final(self)@ == (ContextView {
                resource_states: uniform(old(self)@.resource_states.len(), ResourceState::InUse),
                ..old(self)@
            }),
            final(self).config == old(self).config,
    {
        let mut i: usize = 0;
        while i < self.resources.len()
            invariant
                i <= self.resources.len(),
                self.resources@.len() == old(self).resources@.len(),
                held_view(self.resources@) == held_view(old(self).resources@),
                all_locks_view(self.resources@) == all_locks_view(old(self).resources@),
                forall|j: int| 0 <= j < i ==> (#[trigger] self.resources@[j]).state is InUse,
                *self == (TransactionContext { resources: self.resources, ..*old(self) }),
            decreases self.resources.len() - i,
        {
            let ghost before = self.resources@;
            self.resources[i].enter(ResourceState::InUse);
            proof {
                assert forall|j: int| 0 <= j < before.len() && j != i implies self.resources@[j]
                    == before[j] by {}
                assert(held_view(self.resources@) =~= held_view(before));
                assert(all_locks_view(self.resources@) =~= all_locks_view(before));
            }
            i = i + 1;
        }
        proof {
            assert(states_view(self.resources@) =~= uniform(
                old(self)@.resource_states.len(),
                ResourceState::InUse,
            ));
        }
    }

    /// Declares one more operation, behind those that are declared.
    pub fn add_operation(&mut self, operation: TransactionOperation)
        ensures
            final(self)@ == (ContextView {
                operations: old(self)@.operations.push(operation),
                ..old(self)@
            }),
            old(self)@.wf() ==> final(self)@.wf(),
    {
        self.operations.push(operation);
    }

    /// Moves the transaction to the state `to` where its graph allows that.
    fn advance(&mut self, to: TransactionState, reason: &str) -> (moved: bool)
        ensures
            old(self)@.wf() ==> {
                &&& moved == may_follow(old(self)@.current(), to)
                &&& moved ==> final(self)@.current() == to
                &&& !moved ==> final(self)@.current() == old(self)@.current()
                &&& final(self)@.wf()
                &&& final(self)@.id == old(self)@.id
                &&& final(self)@.parent_id == old(self)@.parent_id
                &&& final(self)@.start_time == old(self)@.start_time
                &&& final(self)@.operations == old(self)@.operations
                &&& final(self)@.metadata == old(self)@.metadata
                &&& final(self)@.isolation_level == old(self)@.isolation_level
                &&& final(self)@.propagation_behavior == old(self)@.propagation_behavior
                &&& final(self)@.timeout == old(self)@.timeout
                &&& final(self)@.max_retries == old(self)@.max_retries
                &&& final(self)@.recovery_policy == old(self)@.recovery_policy
                &&& final(self)@.held == old(self)@.held
                &&& final(self)@.resource_states == old(self)@.resource_states
                &&& final(self)@.resource_locks == old(self)@.resource_locks
                &&& final(self)@.released == old(self)@.released
                &&& final(self)@.applied == old(self)@.applied
                &&& final(self)@.attempts == old(self)@.attempts
                &&& final(self).config == old(self).config
            },
    {
        proof {
            reveal(obeys_concrete_eq);
            assert(obeys_concrete_eq::<TransactionState>());
        }
        match self.state.transition_to(to, Some(reason.to_owned())) {
            Ok(()) => true,
            Err(_) => false,
        }
    }
}

/// Applies and undoes the declared operations on the resources they target.
pub trait ResourceExecutor {
    /// Applies the operation.
    fn apply(&self, operation: &TransactionOperation) -> Result<(), CaptureError>;

    /// Undoes the operation after it was applied.
    fn undo(&self, operation: &TransactionOperation) -> Result<(), CaptureError>;
}

/// How a commit that did not fail for good has ended.
#[derive(Clone, Copy, Debug, PartialEq, Eq, Structural)]
pub enum CommitStep {
    /// Every operation is applied and the transaction is committed.
    Committed,
    /// An operation failed and the recovery policy asks to call `commit`
    /// again after the delay. The transaction keeps its locks.
    RetryAfter(Duration),
}

/// What the outcome of one operation of a commit has led to.
#[derive(Debug)]
pub enum OperationStep {
    /// The operation is applied; the next one is due, or the commit can end.
    Applied,
    /// The operation failed and the recovery policy asks to try the commit
    /// again after the delay.
    RetryAfter(Duration),
    /// The operation failed with the error and the transaction was rolled
    /// back.
    RolledBack(CaptureError),
}

/// What is done about a commit that failed.
#[derive(Clone, Copy, Debug, PartialEq, Eq, Structural)]
pub enum RecoveryAction {
    Retry(Duration),
    RollBack,
}

/// What the recovery policy asks for after the commit has failed `attempts`
/// times: a retry policy asks for another try while the number of failures
/// is below its bound; the rollback policy never does; a custom policy asks
/// for what it answered.
pub open spec fn decided(policy: RecoveryPolicy, attempts: u32, custom_answer: bool) -> RecoveryAction {
    match policy {
        RecoveryPolicy::Retry { max_attempts, delay } => if attempts < max_attempts {
            RecoveryAction::Retry(delay)
        } else {
            RecoveryAction::RollBack
        },
        RecoveryPolicy::Rollback => RecoveryAction::RollBack,
        RecoveryPolicy::Custom(_) => if custom_answer {
            RecoveryAction::Retry(Duration::from_nanos_spec(0))
        } else {
            RecoveryAction::RollBack
        },
    }
}

/// Says what the recovery policy asks for after the commit has failed
/// `attempts` times, given what a custom policy answered.
pub fn recovery_action(policy: &RecoveryPolicy, attempts: u32, custom_answer: bool) -> (action:
    RecoveryAction)
    ensures
        action == decided(*policy, attempts, custom_answer),
{
    match policy {
        RecoveryPolicy::Retry { max_attempts, delay } => if attempts < *max_attempts {
            RecoveryAction::Retry(*delay)
        } else {
            RecoveryAction::RollBack
        },
        RecoveryPolicy::Rollback => RecoveryAction::RollBack,
        RecoveryPolicy::Custom(_) => if custom_answer {
            RecoveryAction::Retry(Duration::zero())
        } else {
            RecoveryAction::RollBack
        },
    }
}

/// The registry after the state of the transaction is noted: in the place of
/// its first entry, or behind the others where it has none.
pub open spec fn noted(
    registry: Seq<(Seq<char>, TransactionState)>,
    id: Seq<char>,
    state: TransactionState,
) -> Seq<(Seq<char>, TransactionState)> {
    if has_entry(registry, id) {
        registry.update(choose|i: int| is_first_entry(registry, id, i), (id, state))
    } else {
        registry.push((id, state))
    }
}

/// Notes the state of the transaction in the registry.
fn note(registry: &mut Vec<(String, TransactionState)>, id: &String, state: TransactionState)
    ensures
        entries_view(final(registry)@) == noted(entries_view(old(registry)@), id@, state),
{
    let ghost before = entries_view(registry@);
    let mut i: usize = 0;
    while i < registry.len()
        invariant
            i <= registry.len(),
            registry@ == old(registry)@,
            before == entries_view(registry@),
            forall|j: int| 0 <= j < i ==> (#[trigger] entries_view(registry@)[j]).0 != id@,
        decreases registry.len() - i,
    {
        if registry[i].0 == *id {
            proof {
                let entries = entries_view(registry@);
                assert(is_first_entry(entries, id@, i as int));
                let c = choose|c: int| is_first_entry(entries, id@, c);
                assert(is_first_entry(entries, id@, c));
                if c < i {
                    assert(entries[c].0 != id@);
                }
                if i < c {
                    assert(entries[i as int].0 != id@);
                }
            }
            registry.set(i, (id.clone(), state));
            proof {
                assert(entries_view(registry@) =~= before.update(i as int, (id@, state)));
            }
            return ;
        }
        i = i + 1;
    }
    registry.push((id.clone(), state));
    proof {
        assert(entries_view(registry@) =~= before.push((id@, state)));
    }
}

/// The mathematical model of a coordinator.
pub struct CoordinatorView {
    /// The locks that transactions hold, in the order in which they were
    /// granted.
    pub locks: Seq<HeldView>,
    /// The last state that was noted of each transaction.
    pub registry: Seq<(Seq<char>, TransactionState)>,
    pub metrics: TxMetricsView,
    /// The number that the next transaction gets.
    pub sequence: u64,
    /// The validator that judges the step from `Preparing` to `Prepared`.
    pub validator: ValidatorView,
    /// The configuration that the coordinator was made with.
    pub config: TransactionConfig,
}

/// Whether some lock of the table stands in the way of one of the requests.
pub open spec fn blocked(table: Seq<HeldView>, transaction: Seq<char>, requests: Seq<RequestView>) -> bool {
    exists|k: int| 0 <= k < requests.len() && contended(table, transaction, #[trigger] requests[k])
}

/// The error that answers a coordinator configuration without a timeout.
pub open spec fn no_timeout() -> CaptureErrorView {
    CaptureErrorView::plain(
        CaptureErrorKind::Configuration(ConfigErrorKind::InvalidValue),
        "Transaction timeout must be greater than 0"@,
    )
}

/// The error that answers a transaction that must join another one where
/// there is none.
pub open spec fn needs_parent() -> CaptureErrorView {
    CaptureErrorView::plain(
        CaptureErrorKind::Configuration(ConfigErrorKind::ValidationFailed),
        "Mandatory propagation needs an enclosing transaction"@,
    )
}

/// The error that answers `prepare` for a transaction that is not being
/// prepared.
pub open spec fn not_preparing() -> CaptureErrorView {
    CaptureErrorView::plain(
        CaptureErrorKind::Resource(ResourceErrorKind::InvalidState),
        "Transaction is not in the Preparing state"@,
    )
}

/// The error that ends a transaction whose validation did not permit it.
pub open spec fn validation_refused() -> CaptureErrorView {
    CaptureErrorView::plain(
        CaptureErrorKind::Configuration(ConfigErrorKind::ValidationFailed),
        "Transaction validation failed"@,
    )
}

/// The error that ends a transaction that could not take a lock because a
/// lock of another transaction stands in its way: a failed operation of the
/// runtime.
pub open spec fn lock_contention() -> CaptureErrorView {
    CaptureErrorView::plain(
        CaptureErrorKind::Runtime(RuntimeErrorKind::OperationFailed),
        "Failed to acquire a lock on a resource of the transaction"@,
    )
}

/// The error that answers `commit` for a transaction that is not prepared.
pub open spec fn not_prepared() -> CaptureErrorView {
    CaptureErrorView::plain(
        CaptureErrorKind::Resource(ResourceErrorKind::InvalidState),
        "Transaction is not ready to commit"@,
    )
}

/// The error that answers the outcome of an operation where no operation of
/// the transaction is being applied.
pub open spec fn no_operation_due() -> CaptureErrorView {
    CaptureErrorView::plain(
        CaptureErrorKind::Resource(ResourceErrorKind::InvalidState),
        "No operation of the transaction is being applied"@,
    )
}

/// The step that the validator judges when a transaction is prepared: from
/// `Preparing` to `Prepared`.
pub open spec fn preparation_step() -> (TransactionState, TransactionState) {
    (TransactionState::Preparing, TransactionState::Prepared)
}

/// Whether the preparation of a transaction with `operations` declared
/// operations is settled without the answer of any rule or custom validator:
/// nothing is declared, or the validator is switched off, or it has nothing
/// to ask.
pub open spec fn nothing_to_judge(validator: ValidatorView, operations: nat) -> bool {
    ||| operations == 0
    ||| !validator.config.enabled
    ||| (validator.rules.len() == 0 && validator.customs == 0)
}

/// The error that answers `rollback` for a transaction that is over or is
/// being rolled back.
pub open spec fn cannot_roll_back() -> CaptureErrorView {
    CaptureErrorView::plain(
        CaptureErrorKind::Resource(ResourceErrorKind::InvalidState),
        "Transaction cannot be rolled back"@,
    )
}

/// The error that answers the id of a transaction that is not known.
pub open spec fn transaction_not_found() -> CaptureErrorView {
    CaptureErrorView::plain(
        CaptureErrorKind::Runtime(RuntimeErrorKind::EntityNotFound),
        "Transaction not found"@,
    )
}

/// Whether the transaction `after` is the transaction `before` but for its
/// state machine, the locks it holds, and what it counts.
pub open spec fn same_transaction(before: ContextView, after: ContextView) -> bool {
    &&& after.id == before.id
    &&& after.parent_id == before.parent_id
    &&& after.start_time == before.start_time
    &&& after.operations == before.operations
    &&& after.metadata == before.metadata
    &&& after.isolation_level == before.isolation_level
    &&& after.propagation_behavior == before.propagation_behavior
    &&& after.timeout == before.timeout
    &&& after.max_retries == before.max_retries
    &&& after.recovery_policy == before.recovery_policy
}

/// Whether `released` names the resources of the requests from the last to
/// the first: locks are given back in the opposite order of their taking.
pub open spec fn in_reverse(held: Seq<RequestView>, released: Seq<Seq<char>>) -> bool {
    &&& released.len() == held.len()
    &&& forall|i: int|
        0 <= i < released.len() ==> #[trigger] released[i] == held[held.len() - 1 - i].resource_id
}

/// Default implementation of a transaction coordinator.
pub struct DefaultTransactionCoordinator {
    state_validator: StateValidator<TransactionState>,
    active_transactions: Vec<(String, TransactionState)>,
    locks: Vec<HeldLock>,
    config: TransactionConfig,
    metrics: TransactionMetrics,
    sequence: u64,
}

impl View for DefaultTransactionCoordinator {
    type V = CoordinatorView;

    closed spec fn view(&self) -> CoordinatorView {
        CoordinatorView {
            locks: locks_view(self.locks@),
            registry: entries_view(self.active_transactions@),
            metrics: self.metrics@,
            sequence: self.sequence,
            validator: self.state_validator@,
            config: self.config,
        }
    }
}

/// A state machine of a transaction in `Initial`, with the transition graph
/// of transactions.
fn transaction_machine() -> (m: StateMachine<TransactionState>)
    ensures
        m@.current == TransactionState::Initial,
        m@.graph == transaction_graph(),
        m@.wf(),
        m@.history.len() == 0,
{
    let mut m = StateMachine::fresh(TransactionState::Initial, 16);
    m.add_transition(TransactionState::Initial, TransactionState::Preparing);
    m.add_transition(TransactionState::Preparing, TransactionState::Prepared);
    m.add_transition(TransactionState::Prepared, TransactionState::Committing);
    m.add_transition(TransactionState::Committing, TransactionState::Committed);
    m.add_transition(TransactionState::RollingBack, TransactionState::RolledBack);
    m.add_transition(TransactionState::Initial, TransactionState::RollingBack);
    m.add_transition(TransactionState::Preparing, TransactionState::RollingBack);
    m.add_transition(TransactionState::Prepared, TransactionState::RollingBack);
    m.add_transition(TransactionState::Committing, TransactionState::RollingBack);
    m.add_transition(TransactionState::Initial, TransactionState::Failed);
    m.add_transition(TransactionState::Preparing, TransactionState::Failed);
    m.add_transition(TransactionState::Prepared, TransactionState::Failed);
    m.add_transition(TransactionState::Committing, TransactionState::Failed);
    m.add_transition(TransactionState::RollingBack, TransactionState::Failed);
    m.add_transition(TransactionState::Initial, TransactionState::TimedOut);
    m.add_transition(TransactionState::Preparing, TransactionState::TimedOut);
    m.add_transition(TransactionState::Prepared, TransactionState::TimedOut);
    m.add_transition(TransactionState::Committing, TransactionState::TimedOut);
    m.add_transition(TransactionState::RollingBack, TransactionState::TimedOut);
    proof {
        assert(m@.graph =~= transaction_graph());
    }
    m
}

/// The number of failed commits after one more, which stops at the top of
/// its range.
pub open spec fn next_attempt(attempts: u32) -> u32 {
    if attempts == u32::MAX {
        attempts
    } else {
        (attempts + 1) as u32
    }
}

/// Whether the coordinator `after` is the coordinator `before` after the
/// transaction `id` has come to an end in `state` and has given back its
/// locks.
pub open spec fn ended(
    before: CoordinatorView,
    after: CoordinatorView,
    id: Seq<char>,
    state: TransactionState,
) -> bool {
    &&& after.locks == without_holder(before.locks, id)
    &&& after.registry == noted(before.registry, id, state)
    &&& after.sequence == before.sequence
    &&& after.validator == before.validator
    &&& after.config == before.config
}

impl DefaultTransactionCoordinator {
    /// A coordinator without transactions and locks. A configuration whose
    /// timeout is zero is refused.
    pub fn new(state_validator: StateValidator<TransactionState>, config: TransactionConfig) -> (r:
        Result<DefaultTransactionCoordinator, CaptureError>)
        ensures
            config.timeout@ == 0 ==> (r matches Err(e) && e@ == no_timeout()),
            config.timeout@ > 0 ==> (r matches Ok(c) && c@ == (CoordinatorView {
                locks: Seq::empty(),
                registry: Seq::empty(),
                metrics: TxMetricsView::zero(),
                sequence: 0,
                validator: state_validator@,
                config,
            })),
    {
        if config.timeout.is_zero() {
            let e = CaptureError::new(
                CaptureErrorKind::Configuration(ConfigErrorKind::InvalidValue),
                "Transaction timeout must be greater than 0",
            );
            return Err(*e);
        }
        let c = DefaultTransactionCoordinator {
            state_validator,
            active_transactions: Vec::new(),
            locks: Vec::new(),
            config,
            metrics: TransactionMetrics::new(),
            sequence: 0,
        };
        proof {
            assert(locks_view(c.locks@) =~= Seq::<HeldView>::empty());
            assert(entries_view(c.active_transactions@) =~= Seq::<
                (Seq<char>, TransactionState),
            >::empty());
        }
        Ok(c)
    }

    /// The counters of the coordinator.
    pub fn metrics(&self) -> (m: &TransactionMetrics)
        ensures
            m@ == self@.metrics,
    {
        &self.metrics
    }

    /// The locks that transactions hold.
    pub fn locks(&self) -> (l: &Vec<HeldLock>)
        ensures
            locks_view(l@) == self@.locks,
    {
        &self.locks
    }

    /// The configuration that the coordinator was made with.
    pub fn config(&self) -> (c: &TransactionConfig)
        ensures
            *c == self@.config,
    {
        &self.config
    }

    /// The validator that judges the step from `Preparing` to `Prepared`.
    pub fn state_validator(&self) -> (v: &StateValidator<TransactionState>)
        ensures
            v@ == self@.validator,
    {
        &self.state_validator
    }

    /// Adds a rule to the validator that judges the step from `Preparing` to
    /// `Prepared`: the rule takes the place of a rule of the same name and
    /// stands behind the rules of its priority. Locks, registry and counters
    /// stay as they are.
    pub fn add_validation_rule(&mut self, rule: ValidationRule<TransactionState>)
        ensures
            final(self)@ == (CoordinatorView {
                validator: old(self)@.validator.with_rule(rule@),
                ..old(self)@
            }),
            old(self)@.validator.wf() ==> final(self)@.validator.wf(),
    {
        self.state_validator.add_rule(rule);
    }

    /// Begins a transaction: makes its context in `Initial`, moves it to
    /// `Preparing` and notes it in the registry. A transaction that must
    /// join an enclosing one is refused, for this one has none.
    pub fn begin_transaction(&mut self, config: TransactionConfig) -> (r: Result<
        TransactionContext,
        CaptureError,
    >)
        ensures
            config.propagation_behavior is Mandatory ==> {
                &&& r matches Err(e) && e@ == needs_parent()
                &&& final(self)@ == old(self)@
            },
            !(config.propagation_behavior is Mandatory) ==> {
                &&& r matches Ok(tx) && {
                    &&& tx@.wf()
                    &&& tx@.id == numbered_text("tx-"@, old(self)@.sequence as nat)
                    &&& tx@.parent_id.is_none()
                    &&& tx@.current() == TransactionState::Preparing
                    &&& tx@.operations.len() == 0
                    &&& tx@.metadata == Map::<String, String>::empty()
                    &&& tx@.isolation_level == config.isolation_level
                    &&& tx@.propagation_behavior == config.propagation_behavior
                    &&& tx@.timeout == config.timeout
                    &&& tx@.max_retries == config.max_retries
                    &&& tx@.recovery_policy == config.recovery_policy
                    &&& tx@.held.len() == 0
                    &&& tx@.resource_states.len() == 0
                    &&& tx@.resource_locks.len() == 0
                    &&& tx@.released.len() == 0
                    &&& tx@.applied == 0
                    &&& tx@.attempts == 0
                    &&& final(self)@ == (CoordinatorView {
                        registry: noted(old(self)@.registry, tx@.id, TransactionState::Preparing),
                        metrics: old(self)@.metrics.begun(),
                        sequence: bump(old(self)@.sequence),
                        ..old(self)@
                    })
                }
            },
    {
        match config.propagation_behavior {
            PropagationBehavior::Mandatory => {
                let e = CaptureError::new(
                    CaptureErrorKind::Configuration(ConfigErrorKind::ValidationFailed),
                    "Mandatory propagation needs an enclosing transaction",
                );
                return Err(*e);
            },
            _ => {},
        }
        let id = numbered("tx-", self.sequence);
        self.sequence = self.sequence.wrapping_add(1);
        let mut tx = TransactionContext {
            id,
            parent_id: None,
            start_time: Timestamp::now(),
            state: transaction_machine(),
            operations: Vec::new(),
            metadata: HashMap::new(),
            config,
            resources: Vec::new(),
            released: Vec::new(),
            applied: 0,
            attempts: 0,
        };
        proof {
            assert(held_view(tx.resources@) =~= Seq::<RequestView>::empty());
            assert(states_view(tx.resources@) =~= Seq::<ResourceState>::empty());
            assert(all_locks_view(tx.resources@) =~= Seq::<Seq<LockType>>::empty());
        }
        tx.advance(TransactionState::Preparing, "Transaction started");
        note(&mut self.active_transactions, &tx.id, TransactionState::Preparing);
        self.metrics.record_begun();
        Ok(tx)
    }

    /// Marks the transaction as failed.
    fn fail(&mut self, tx: &mut TransactionContext)
        ensures
            old(tx)@.wf() && !old(tx)@.current().is_final() ==> {
                &&& final(tx)@.wf()
                &&& final(tx)@.current() == TransactionState::Failed
                &&& same_transaction(old(tx)@, final(tx)@)
                &&& final(tx)@.held == old(tx)@.held
                &&& final(tx)@.resource_states == old(tx)@.resource_states
                &&& final(tx)@.resource_locks == old(tx)@.resource_locks
                &&& final(tx)@.released == old(tx)@.released
                &&& final(tx)@.applied == old(tx)@.applied
                &&& final(tx)@.attempts == old(tx)@.attempts
                &&& final(self)@ == (CoordinatorView {
                    registry: noted(old(self)@.registry, old(tx)@.id, TransactionState::Failed),
                    metrics: old(self)@.metrics.failed(),
                    ..old(self)@
                })
            },
            final(self)@.validator == old(self)@.validator,
            final(self)@.config == old(self)@.config,
    {
        tx.advance(TransactionState::Failed, "Transaction failed");
        note(&mut self.active_transactions, &tx.id, TransactionState::Failed);
        self.metrics.record_failed();
    }

    /// Gives back the locks of the transaction, from the last taken to the
    /// first.
    fn release(&mut self, tx: &mut TransactionContext)
        ensures
            final(self)@ == (CoordinatorView {
                locks: without_holder(old(self)@.locks, old(tx)@.id),
                ..old(self)@
            }),
            final(tx)@ == (ContextView {
                held: Seq::empty(),
                resource_states: Seq::empty(),
                resource_locks: Seq::empty(),
                released: final(tx)@.released,
                ..old(tx)@
            }),
            in_reverse(old(tx)@.held, final(tx)@.released),
            final(tx).config == old(tx).config,
    {
        let ghost held = held_view(tx.resources@);
        let mut released: Vec<String> = Vec::new();
        let mut k: usize = tx.resources.len();
        while k > 0
            invariant
                k <= tx.resources.len(),
                held == held_view(tx.resources@),
                released@.len() == tx.resources.len() - k,
                forall|i: int|
                    0 <= i < released@.len() ==> (#[trigger] released@[i])@ == held[held.len() - 1
                        - i].resource_id,
            decreases k,
        {
            k = k - 1;
            released.push(tx.resources[k].resource_id.clone());
        }
        tx.released = released;
        tx.resources = Vec::new();
        proof {
            assert(held_view(tx.resources@) =~= Seq::<RequestView>::empty());
            assert(states_view(tx.resources@) =~= Seq::<ResourceState>::empty());
            assert(all_locks_view(tx.resources@) =~= Seq::<Seq<LockType>>::empty());
        }

        let ghost table = locks_view(self.locks@);
        let mut kept: Vec<HeldLock> = Vec::new();
        let mut i: usize = 0;
        proof {
            assert(table.take(0) =~= Seq::<HeldView>::empty());
            assert(locks_view(kept@) =~= Seq::<HeldView>::empty());
        }
        while i < self.locks.len()
            invariant
                i <= self.locks.len(),
                table == locks_view(self.locks@),
                locks_view(kept@) == without_holder(table.take(i as int), tx.id@),
            decreases self.locks.len() - i,
        {
            let ghost so_far = locks_view(kept@);
            proof {
                assert(table.take(i + 1).drop_last() =~= table.take(i as int));
                assert(table.take(i + 1).last() == table[i as int]);
            }
            if self.locks[i].transaction_id != tx.id {
                let copy = HeldLock {
                    resource_id: self.locks[i].resource_id.clone(),
                    transaction_id: self.locks[i].transaction_id.clone(),
                    lock: self.locks[i].lock,
                };
                kept.push(copy);
                proof {
                    assert(locks_view(kept@) =~= so_far.push(table[i as int]));
                }
            }
            i = i + 1;
        }
        proof {
            assert(table.take(i as int) =~= table);
        }
        self.locks = kept;
    }

    /// The step that the validator judges when a transaction is prepared.
    pub fn judged_step() -> (step: (TransactionState, TransactionState))
        ensures
            step == preparation_step(),
    {
        (TransactionState::Preparing, TransactionState::Prepared)
    }

    /// Asks the validator once whether a transaction may go from `Preparing`
    /// to `Prepared`, and says whether its results permit the step.
    ///
    /// A validator that is switched off, or has neither rules nor custom
    /// validators, permits the step. Else the answer is that of the results
    /// of one valid run, which the validator remembers; what the single
    /// checks answer is up to them. Nothing but the validator changes.
    pub fn validate_preparation(&mut self) -> (permitted: bool)
        ensures
            final(self)@ == (CoordinatorView {
                validator: final(self)@.validator,
                ..old(self)@
            }),
            final(self)@.validator.rules == old(self)@.validator.rules,
            final(self)@.validator.customs == old(self)@.validator.customs,
            final(self)@.validator.config == old(self)@.validator.config,
            !old(self)@.validator.config.enabled ==> permitted && final(self)@ == old(self)@,
            old(self)@.validator.config.enabled ==> exists|results: Seq<ResultView>|
                {
                    &&& valid_run(
                        old(self)@.validator.config,
                        old(self)@.validator.rules,
                        old(self)@.validator.customs,
                        results,
                    )
                    &&& permitted == permits(results)
                    &&& final(self)@.validator == #[trigger] old(self)@.validator.remembering(
                        results,
                        final(self)@.validator.stats.average_validation_time,
                    )
                },
            old(self)@.validator.rules.len() == 0 && old(self)@.validator.customs == 0
                ==> permitted,
    {
        let step = Self::judged_step();
        match self.state_validator.validate_transition(&step.0, &step.1) {
            Ok(results) => {
                let permitted = transition_permitted(&results);
                proof {
                    let views = crate::state_validator::results_view(results@);
                    if old(self)@.validator.config.enabled {
                        assert(self@.validator == old(self)@.validator.remembering(
                            views,
                            self@.validator.stats.average_validation_time,
                        ));
                    }
                }
                permitted
            },
            Err(_) => false,
        }
    }

    /// Prepares the transaction: validates the step from `Preparing` to
    /// `Prepared` and takes the locks that the declared operations ask for.
    ///
    /// The validation is made by the validator of the coordinator, once for
    /// every declared operation (see `validate_preparation`); the step is
    /// permitted where every one of these validations permits it. What they
    /// answer is up to the rules; where there is nothing to judge, the locks
    /// alone decide. The rest is as `prepare_with` says for that answer.
    pub fn prepare(&mut self, tx: &mut TransactionContext) -> (r: Result<(), CaptureError>)
        ensures
            old(tx)@.wf() ==> {
                &&& final(tx)@.wf()
                &&& same_transaction(old(tx)@, final(tx)@)
                &&& !(old(tx)@.current() is Preparing) ==> {
                    &&& r matches Err(e) && e@ == not_preparing()
                    &&& final(tx)@ == old(tx)@
                    &&& final(self)@ == old(self)@
                }
                &&& old(tx)@.current() is Preparing ==> {
                    let requests = wanted_all(old(tx)@.operations, old(tx)@.isolation_level);
                    let busy = blocked(old(self)@.locks, old(tx)@.id, requests);
                    &&& r.is_ok() ==> !busy
                    &&& nothing_to_judge(old(self)@.validator, old(tx)@.operations.len()) ==> (
                    r.is_ok() <==> !busy)
                    &&& r.is_ok() ==> prepared(old(self)@, final(self)@, old(tx)@, final(tx)@)
                    &&& r.is_err() ==> refused(old(self)@, final(self)@, old(tx)@, final(tx)@)
                    &&& r matches Err(e) ==> e@ == validation_refused() || (e@ == lock_contention()
                        && busy)
                }
            },
            final(self)@.config == old(self)@.config,
            final(self)@.validator.rules == old(self)@.validator.rules,
            final(self)@.validator.customs == old(self)@.validator.customs,
            final(self)@.validator.config == old(self)@.validator.config,
    {
        match tx.state() {
            TransactionState::Preparing => {},
            _ => {
                let e = CaptureError::new(
                    CaptureErrorKind::Resource(ResourceErrorKind::InvalidState),
                    "Transaction is not in the Preparing state",
                );
                return Err(*e);
            },
        }
        let mut permitted = true;
        let mut i: usize = 0;
        while i < tx.operations.len()
            invariant
                i <= tx.operations.len(),
                *tx == *old(tx),
                self@ == (CoordinatorView { validator: self@.validator, ..old(self)@ }),
                self@.validator.rules == old(self)@.validator.rules,
                self@.validator.customs == old(self)@.validator.customs,
                self@.validator.config == old(self)@.validator.config,
                nothing_to_judge(old(self)@.validator, old(tx)@.operations.len()) ==> permitted,
            decreases tx.operations.len() - i,
        {
            let passed = self.validate_preparation();
            permitted = permitted && passed;
            i = i + 1;
        }
        self.prepare_with(tx, permitted)
    }

    /// Prepares the transaction, given whether the validation permitted the
    /// step from `Preparing` to `Prepared`.
    ///
    /// A transaction that is not in `Preparing` is refused and nothing
    /// changes. Else the transaction becomes `Prepared` exactly when the
    /// validation permitted the step and no lock of another transaction
    /// stands in the way of a lock that the declared operations ask for.
    /// Then it holds all those locks, taken in ascending order of the
    /// resource ids. Else it is `Failed` and holds no lock that it did not
    /// hold before; a refusal for contention is counted.
    pub fn prepare_with(&mut self, tx: &mut TransactionContext, permitted: bool) -> (r: Result<
        (),
        CaptureError,
    >)
        ensures
            old(tx)@.wf() ==> {
                &&& final(tx)@.wf()
                &&& same_transaction(old(tx)@, final(tx)@)
                &&& !(old(tx)@.current() is Preparing) ==> {
                    &&& r matches Err(e) && e@ == not_preparing()
                    &&& final(tx)@ == old(tx)@
                    &&& final(self)@ == old(self)@
                }
                &&& old(tx)@.current() is Preparing ==> {
                    let requests = wanted_all(old(tx)@.operations, old(tx)@.isolation_level);
                    let busy = blocked(old(self)@.locks, old(tx)@.id, requests);
                    &&& r.is_ok() <==> permitted && !busy
                    &&& r.is_ok() ==> prepared(old(self)@, final(self)@, old(tx)@, final(tx)@)
                    &&& r.is_err() ==> refused(old(self)@, final(self)@, old(tx)@, final(tx)@)
                    &&& !permitted ==> (r matches Err(e) && e@ == validation_refused()
                        && final(self)@.metrics == old(self)@.metrics.failed())
                    &&& permitted && busy ==> (r matches Err(e) && e@ == lock_contention()
                        && final(self)@.metrics == old(self)@.metrics.contention().failed())
                }
            },
            final(self)@.validator == old(self)@.validator,
            final(self)@.config == old(self)@.config,
    {
        match tx.state() {
            TransactionState::Preparing => {},
            _ => {
                let e = CaptureError::new(
                    CaptureErrorKind::Resource(ResourceErrorKind::InvalidState),
                    "Transaction is not in the Preparing state",
                );
                return Err(*e);
            },
        }
        if !permitted {
            self.fail(tx);
            let e = CaptureError::new(
                CaptureErrorKind::Configuration(ConfigErrorKind::ValidationFailed),
                "Transaction validation failed",
            );
            return Err(*e);
        }
        let isolation = tx.config.isolation_level;
        let ghost wanted_views = wanted_all(tx.operations@, isolation);
        let mut requests: Vec<LockRequest> = Vec::new();
        let mut busy = false;
        let mut i: usize = 0;
        proof {
            assert(requests_view(requests@) =~= wanted_views.take(0));
        }
        while i < tx.operations.len()
            invariant
                i <= tx.operations.len(),
                isolation == tx.config.isolation_level,
                wanted_views == wanted_all(tx.operations@, isolation),
                requests_view(requests@) == wanted_views.take(i as int),
                busy == blocked(locks_view(self.locks@), tx.id@, wanted_views.take(i as int)),
            decreases tx.operations.len() - i,
        {
            let ghost so_far = requests_view(requests@);
            let request = request_for(&tx.operations[i], isolation);
            let contended_now = is_contended(&self.locks, &tx.id, &request);
            let ghost made = request@;
            requests.push(request);
            i = i + 1;
            proof {
                assert(made == wanted_views[i - 1]);
                assert(requests_view(requests@) =~= so_far.push(made));
                assert(wanted_views.take(i as int) =~= so_far.push(made));
                let table = locks_view(self.locks@);
                let now = wanted_views.take(i as int);
                if busy {
                    let k = choose|k: int|
                        0 <= k < so_far.len() && contended(table, tx.id@, #[trigger] so_far[k]);
                    assert(now[k] == so_far[k]);
                }
                if contended_now {
                    assert(contended(table, tx.id@, now[i - 1]));
                }
                if blocked(table, tx.id@, now) && !busy && !contended_now {
                    let k = choose|k: int|
                        0 <= k < now.len() && contended(table, tx.id@, #[trigger] now[k]);
                    if k < i - 1 {
                        assert(so_far[k] == now[k]);
                    }
                }
            }
            busy = busy || contended_now;
        }
        proof {
            assert(wanted_views.take(i as int) =~= wanted_views);
        }
        if busy {
            self.metrics.record_contention();
            self.fail(tx);
            let e = CaptureError::new(
                CaptureErrorKind::Runtime(RuntimeErrorKind::OperationFailed),
                "Failed to acquire a lock on a resource of the transaction",
            );
            return Err(*e);
        }
        let sorted = in_order(requests);
        let ghost granted = requests_view(sorted@);
        let ghost table = locks_view(self.locks@);
        let ghost held = held_view(tx.resources@);
        let ghost states = states_view(tx.resources@);
        let ghost locks = all_locks_view(tx.resources@);
        let mut k: usize = 0;
        proof {
            assert(granted.take(0) =~= Seq::<RequestView>::empty());
            assert(table + granted_to(tx.id@, granted.take(0)) =~= table);
            assert(held + granted.take(0) =~= held);
            assert(states + uniform(0, ResourceState::Allocated) =~= states);
            assert(locks + single_locks(granted.take(0)) =~= locks);
        }
        while k < sorted.len()
            invariant
                k <= sorted.len(),
                granted == requests_view(sorted@),
                locks_view(self.locks@) == table + granted_to(tx.id@, granted.take(k as int)),
                held_view(tx.resources@) == held + granted.take(k as int),
                states_view(tx.resources@) == states + uniform(k as nat, ResourceState::Allocated),
                all_locks_view(tx.resources@) == locks + single_locks(granted.take(k as int)),
                tx@ == (ContextView {
                    held: held_view(tx.resources@),
                    resource_states: states_view(tx.resources@),
                    resource_locks: all_locks_view(tx.resources@),
                    ..old(tx)@
                }),
                tx.config == old(tx).config,
                self@ == (CoordinatorView { locks: locks_view(self.locks@), ..old(self)@ }),
            decreases sorted.len() - k,
        {
            let ghost locks_before = locks_view(self.locks@);
            let ghost held_before = held_view(tx.resources@);
            let ghost states_before = states_view(tx.resources@);
            let ghost resource_locks_before = all_locks_view(tx.resources@);
            let request = &sorted[k];
            self.locks.push(
                HeldLock {
                    resource_id: request.resource_id.clone(),
                    transaction_id: tx.id.clone(),
                    lock: request.lock,
                },
            );
            let resource = TransactionResource {
                resource_id: request.resource_id.clone(),
                resource_type: request.resource_type,
                state: ResourceState::Allocated,
                locks: vec![request.lock],
            };
            proof {
                assert(resource_request(resource) == granted[k as int]);
                assert(resource.locks@ =~= seq![granted[k as int].lock]);
            }
            tx.resources.push(resource);
            k = k + 1;
            proof {
                let entry = HeldView {
                    resource_id: granted[k - 1].resource_id,
                    transaction_id: tx.id@,
                    lock: granted[k - 1].lock,
                };
                assert(locks_view(self.locks@) =~= locks_before.push(entry));
                assert(granted.take(k as int) =~= granted.take(k - 1).push(granted[k - 1]));
                assert(granted_to(tx.id@, granted.take(k as int)) =~= granted_to(
                    tx.id@,
                    granted.take(k - 1),
                ).push(entry));
                assert(locks_view(self.locks@) =~= table + granted_to(
                    tx.id@,
                    granted.take(k as int),
                ));
                assert(held_view(tx.resources@) =~= held_before.push(granted[k - 1]));
                assert(held_view(tx.resources@) =~= held + granted.take(k as int));
                assert(states_view(tx.resources@) =~= states_before.push(ResourceState::Allocated));
                assert(states_view(tx.resources@) =~= states + uniform(
                    k as nat,
                    ResourceState::Allocated,
                ));
                assert(all_locks_view(tx.resources@) =~= resource_locks_before.push(
                    seq![granted[k - 1].lock],
                ));
                assert(single_locks(granted.take(k as int)) =~= single_locks(
                    granted.take(k - 1),
                ).push(seq![granted[k - 1].lock]));
                assert(all_locks_view(tx.resources@) =~= locks + single_locks(
                    granted.take(k as int),
                ));
            }
        }
        proof {
            assert(granted.take(k as int) =~= granted);
            assert((held + granted).skip(held.len() as int) =~= granted);
        }
        tx.advance(TransactionState::Prepared, "Transaction prepared");
        note(&mut self.active_transactions, &tx.id, TransactionState::Prepared);
        Ok(())
    }
}

/// Whether `prepare` has succeeded: the transaction is `Prepared` and holds,
/// behind the locks it held, the locks that its operations ask for, taken in
/// ascending order of the resource ids; the table of the coordinator has
/// grown by these locks, and the registry knows the new state.
pub open spec fn prepared(
    before: CoordinatorView,
    after: CoordinatorView,
    tx_before: ContextView,
    tx_after: ContextView,
) -> bool {
    let requests = wanted_all(tx_before.operations, tx_before.isolation_level);
    let granted = tx_after.held.skip(tx_before.held.len() as int);
    &&& tx_after.current() == TransactionState::Prepared
    &&& tx_after.held == tx_before.held + granted
    &&& tx_after.resource_states == tx_before.resource_states + uniform(
        granted.len(),
        ResourceState::Allocated,
    )
    &&& tx_after.resource_locks == tx_before.resource_locks + single_locks(granted)
    &&& in_lock_order(granted)
    &&& granted.to_multiset() == requests.to_multiset()
    &&& tx_after.released == tx_before.released
    &&& tx_after.applied == tx_before.applied
    &&& tx_after.attempts == tx_before.attempts
    &&& after.locks == before.locks + granted_to(tx_before.id, granted)
    &&& after.registry == noted(before.registry, tx_before.id, TransactionState::Prepared)
    &&& after.metrics == before.metrics
    &&& after.sequence == before.sequence
}

/// Whether `prepare` has refused the transaction: it is `Failed`, holds the
/// locks it held and no other, and the table of locks is as it was.
pub open spec fn refused(
    before: CoordinatorView,
    after: CoordinatorView,
    tx_before: ContextView,
    tx_after: ContextView,
) -> bool {
    &&& tx_after.current() == TransactionState::Failed
    &&& tx_after.held == tx_before.held
    &&& tx_after.resource_states == tx_before.resource_states
    &&& tx_after.resource_locks == tx_before.resource_locks
    &&& tx_after.released == tx_before.released
    &&& tx_after.applied == tx_before.applied
    &&& tx_after.attempts == tx_before.attempts
    &&& after.locks == before.locks
    &&& after.registry == noted(before.registry, tx_before.id, TransactionState::Failed)
    &&& after.sequence == before.sequence
}

/// Whether the transaction has come to its end in `state`, has given back
/// all its locks in the opposite order of their taking, and the coordinator
/// knows.
pub open spec fn finished_in(
    state: TransactionState,
    before: CoordinatorView,
    after: CoordinatorView,
    tx_before: ContextView,
    tx_after: ContextView,
) -> bool {
    &&& tx_after.current() == state
    &&& tx_after.held.len() == 0
    &&& tx_after.resource_states.len() == 0
    &&& tx_after.resource_locks.len() == 0
    &&& in_reverse(tx_before.held, tx_after.released)
    &&& ended(before, after, tx_before.id, state)
}

impl DefaultTransactionCoordinator {
    /// Undoes the applied operations of the transaction, the last applied
    /// first. An operation that cannot be undone is passed over. Says whether
    /// every one was undone, as is the case where none was applied.
    fn undo_applied<E: ResourceExecutor>(tx: &mut TransactionContext, executor: &E) -> (clean: bool)
        ensures
            old(tx)@.wf() ==> {
                &&& final(tx)@ == (ContextView { applied: 0, ..old(tx)@ })
                &&& final(tx).config == old(tx).config
            },
            old(tx)@.applied == 0 ==> clean,
    {
        let mut clean = true;
        let mut k: usize = if tx.applied <= tx.operations.len() {
            tx.applied
        } else {
            tx.operations.len()
        };
        while k > 0
            invariant
                k <= tx.operations.len(),
                k <= tx.applied,
                *tx == *old(tx),
                old(tx)@.applied == 0 ==> clean,
            decreases k,
        {
            k = k - 1;
            match executor.undo(&tx.operations[k]) {
                Ok(()) => {},
                Err(_) => {
                    clean = false;
                },
            }
        }
        tx.applied = 0;
        clean
    }

    /// Rolls the transaction back: undoes what was applied, gives back the
    /// locks and ends in `RolledBack`. Says whether every applied operation
    /// was undone, as is the case where none was applied.
    fn roll_back<E: ResourceExecutor>(&mut self, tx: &mut TransactionContext, executor: &E) -> (clean:
        bool)
        ensures
            old(tx)@.wf() && may_follow(old(tx)@.current(), TransactionState::RollingBack) ==> {
                &&& final(tx)@.wf()
                &&& same_transaction(old(tx)@, final(tx)@)
                &&& final(tx)@.applied == 0
                &&& final(tx)@.attempts == old(tx)@.attempts
                &&& finished_in(
                    TransactionState::RolledBack,
                    old(self)@,
                    final(self)@,
                    old(tx)@,
                    final(tx)@,
                )
                &&& final(self)@.metrics == old(self)@.metrics.rolled_back()
                &&& old(tx)@.applied == 0 ==> clean
            },
    {
        tx.advance(TransactionState::RollingBack, "Rollback started");
        let clean = Self::undo_applied(tx, executor);
        self.release(tx);
        tx.advance(TransactionState::RolledBack, "Rollback finished");
        note(&mut self.active_transactions, &tx.id, TransactionState::RolledBack);
        self.metrics.record_rolled_back();
        clean
    }

    /// Takes the outcome of applying the operation that is due, and the
    /// answer of a custom recovery policy to the failure, and says what
    /// follows.
    ///
    /// An outcome is taken only while the transaction is `Committing` and an
    /// operation is due; else it is refused and nothing changes. A success
    /// counts the operation as applied. A failure counts against the
    /// recovery policy of the transaction: where the policy asks for another
    /// try, the transaction keeps its locks and what is applied, and the
    /// answer is to call `commit` again after the delay; else the
    /// transaction is rolled back and the answer carries the error of the
    /// operation.
    pub fn operation_outcome<E: ResourceExecutor>(
        &mut self,
        tx: &mut TransactionContext,
        outcome: Result<(), CaptureError>,
        custom_answer: bool,
        executor: &E,
    ) -> (r: Result<OperationStep, CaptureError>)
        ensures
            old(tx)@.wf() ==> final(tx)@.wf() && same_transaction(old(tx)@, final(tx)@),
            !(old(tx)@.current() is Committing && old(tx)@.applied < old(tx)@.operations.len())
                ==> {
                &&& (r matches Err(e) && e@ == no_operation_due())
                &&& final(tx)@ == old(tx)@
                &&& final(self)@ == old(self)@
            },
            old(tx)@.current() is Committing && old(tx)@.applied < old(tx)@.operations.len()
                ==> match outcome {
                Ok(()) => {
                    &&& (r matches Ok(OperationStep::Applied))
                    &&& final(tx)@ == (ContextView {
                        applied: old(tx)@.applied + 1,
                        ..old(tx)@
                    })
                    &&& final(self)@ == old(self)@
                },
                Err(failure) => match decided(
                    old(tx)@.recovery_policy,
                    next_attempt(old(tx)@.attempts),
                    custom_answer,
                ) {
                    RecoveryAction::Retry(delay) => {
                        &&& (r matches Ok(OperationStep::RetryAfter(d)) && d == delay)
                        &&& final(tx)@ == (ContextView {
                            attempts: next_attempt(old(tx)@.attempts),
                            ..old(tx)@
                        })
                        &&& final(self)@ == old(self)@
                    },
                    RecoveryAction::RollBack => {
                        &&& (r matches Ok(OperationStep::RolledBack(e)) && e == failure)
                        &&& old(tx)@.wf() ==> {
                            &&& finished_in(
                                TransactionState::RolledBack,
                                old(self)@,
                                final(self)@,
                                old(tx)@,
                                final(tx)@,
                            )
                            &&& final(tx)@.applied == 0
                            &&& final(tx)@.attempts == next_attempt(old(tx)@.attempts)
                            &&& final(self)@.metrics == old(self)@.metrics.rolled_back()
                        }
                    },
                },
            },
    {
        let committing = match tx.state() {
            TransactionState::Committing => true,
            _ => false,
        };
        if !committing || tx.applied >= tx.operations.len() {
            let e = CaptureError::new(
                CaptureErrorKind::Resource(ResourceErrorKind::InvalidState),
                "No operation of the transaction is being applied",
            );
            return Err(*e);
        }
        match outcome {
            Ok(()) => {
                tx.applied = tx.applied + 1;
                Ok(OperationStep::Applied)
            },
            Err(failure) => {
                if tx.attempts < u32::MAX {
                    tx.attempts = tx.attempts + 1;
                }
                match recovery_action(&tx.config.recovery_policy, tx.attempts, custom_answer) {
                    RecoveryAction::Retry(delay) => Ok(OperationStep::RetryAfter(delay)),
                    RecoveryAction::RollBack => {
                        self.roll_back(tx, executor);
                        Ok(OperationStep::RolledBack(failure))
                    },
                }
            },
        }
    }

    /// Commits the transaction: applies the declared operations in their
    /// order, gives back the locks in the opposite order of their taking, and
    /// ends in `Committed`.
    ///
    /// The commit is all or nothing. A transaction that is neither
    /// `Prepared` nor, after a retry was asked for, `Committing` is refused
    /// and nothing changes. The operations go to the executor one by one, in
    /// the declared order, from the first that is not applied yet (see
    /// `next_operation`), and each outcome is handled as `operation_outcome`
    /// says: either the caller is asked to call `commit` again after a delay,
    /// and the transaction keeps its locks and what is applied; or the
    /// transaction is rolled back, ends in `RolledBack` without locks, and
    /// the error of the operation is returned. A transaction with nothing
    /// left to apply is committed.
    pub fn commit<E: ResourceExecutor>(&mut self, tx: &mut TransactionContext, executor: &E) -> (r:
        Result<CommitStep, CaptureError>)
        ensures
            old(tx)@.wf() ==> {
                &&& final(tx)@.wf()
                &&& same_transaction(old(tx)@, final(tx)@)
                &&& !(old(tx)@.current() is Prepared || old(tx)@.current() is Committing) ==> {
                    &&& r matches Err(e) && e@ == not_prepared()
                    &&& final(tx)@ == old(tx)@
                    &&& final(self)@ == old(self)@
                }
                &&& (old(tx)@.current() is Prepared || old(tx)@.current() is Committing) && old(
                    tx,
                )@.applied == old(tx)@.operations.len() ==> (r matches Ok(CommitStep::Committed))
                &&& old(tx)@.current() is Prepared || old(tx)@.current() is Committing ==> match r {
                    Ok(CommitStep::Committed) => {
                        &&& finished_in(
                            TransactionState::Committed,
                            old(self)@,
                            final(self)@,
                            old(tx)@,
                            final(tx)@,
                        )
                        &&& final(tx)@.applied == final(tx)@.operations.len()
                        &&& final(tx)@.attempts == old(tx)@.attempts
                        &&& exists|duration_ms: u64|
                            final(self)@.metrics == #[trigger] old(self)@.metrics.committed(duration_ms)
                    },
                    Ok(CommitStep::RetryAfter(delay)) => {
                        &&& final(tx)@.current() == TransactionState::Committing
                        &&& final(tx)@.held == old(tx)@.held
                        &&& final(tx)@.resource_locks == old(tx)@.resource_locks
                        &&& final(tx)@.resource_states == uniform(
                            old(tx)@.resource_states.len(),
                            ResourceState::InUse,
                        ) || final(tx)@.resource_states == old(tx)@.resource_states
                        &&& final(tx)@.released == old(tx)@.released
                        &&& old(tx)@.applied <= final(tx)@.applied < final(tx)@.operations.len()
                        &&& final(tx)@.attempts == next_attempt(old(tx)@.attempts)
                        &&& exists|answer: bool|
                            #[trigger] decided(
                                final(tx)@.recovery_policy,
                                final(tx)@.attempts,
                                answer,
                            ) == RecoveryAction::Retry(delay)
                        &&& final(self)@ == (CoordinatorView {
                            registry: noted(
                                old(self)@.registry,
                                old(tx)@.id,
                                TransactionState::Committing,
                            ),
                            ..old(self)@
                        })
                    },
                    Err(_) => {
                        &&& finished_in(
                            TransactionState::RolledBack,
                            old(self)@,
                            final(self)@,
                            old(tx)@,
                            final(tx)@,
                        )
                        &&& final(tx)@.applied == 0
                        &&& final(tx)@.attempts == next_attempt(old(tx)@.attempts)
                        &&& final(self)@.metrics == old(self)@.metrics.rolled_back()
                    },
                }
            },
    {
        match tx.state() {
            TransactionState::Prepared => {
                tx.advance(TransactionState::Committing, "Commit started");
                tx.mark_in_use();
            },
            TransactionState::Committing => {},
            _ => {
                let e = CaptureError::new(
                    CaptureErrorKind::Resource(ResourceErrorKind::InvalidState),
                    "Transaction is not ready to commit",
                );
                return Err(*e);
            },
        }
        note(&mut self.active_transactions, &tx.id, TransactionState::Committing);
        let ghost tx_mid = tx@;
        let ghost self_mid = self@;
        loop
            invariant
                old(tx)@.current() is Prepared || old(tx)@.current() is Committing,
                tx@ == (ContextView { applied: tx@.applied, ..tx_mid }),
                self@ == self_mid,
                tx_mid.applied <= tx@.applied,
                old(tx)@.wf() ==> {
                    &&& tx@.wf()
                    &&& tx@.applied <= tx@.operations.len()
                    &&& tx_mid.applied == old(tx)@.applied
                    &&& tx_mid.current() == TransactionState::Committing
                    &&& same_transaction(old(tx)@, tx_mid)
                    &&& tx_mid.held == old(tx)@.held
                    &&& tx_mid.resource_locks == old(tx)@.resource_locks
                    &&& tx_mid.resource_states == uniform(
                        old(tx)@.resource_states.len(),
                        ResourceState::InUse,
                    ) || tx_mid.resource_states == old(tx)@.resource_states
                    &&& tx_mid.released == old(tx)@.released
                    &&& tx_mid.attempts == old(tx)@.attempts
                    &&& self_mid == (CoordinatorView {
                        registry: noted(
                            old(self)@.registry,
                            old(tx)@.id,
                            TransactionState::Committing,
                        ),
                        ..old(self)@
                    })
                },
            ensures
                tx@.applied >= tx@.operations.len(),
            decreases tx.operations.len() - tx.applied,
        {
            let outcome = match tx.next_operation() {
                Some(operation) => executor.apply(operation),
                None => {
                    break ;
                },
            };
            let upcoming = if tx.attempts < u32::MAX {
                tx.attempts + 1
            } else {
                tx.attempts
            };
            let answer = match &outcome {
                Ok(()) => false,
                Err(_) => match &tx.config.recovery_policy {
                    RecoveryPolicy::Custom(policy) => policy.should_retry(tx.id.as_str(), upcoming),
                    _ => false,
                },
            };
            match self.operation_outcome(tx, outcome, answer, executor) {
                Ok(OperationStep::Applied) => {},
                Ok(OperationStep::RetryAfter(delay)) => {
                    assert(old(tx)@.wf() ==> decided(tx@.recovery_policy, tx@.attempts, answer)
                        == RecoveryAction::Retry(delay));
                    return Ok(CommitStep::RetryAfter(delay));
                },
                Ok(OperationStep::RolledBack(e)) => {
                    proof {
                        lemma_noted_twice(
                            old(self)@.registry,
                            old(tx)@.id,
                            TransactionState::Committing,
                            TransactionState::RolledBack,
                        );
                    }
                    return Err(e);
                },
                Err(e) => {
                    return Err(e);
                },
            }
        }
        self.release(tx);
        tx.advance(TransactionState::Committed, "Commit finished");
        note(&mut self.active_transactions, &tx.id, TransactionState::Committed);
        let elapsed = match Timestamp::now().duration_since(tx.start_time) {
            Some(span) => span,
            None => Duration::zero(),
        };
        let millis: u128 = elapsed.as_millis() % 0x1_0000_0000_0000_0000u128;
        self.metrics.record_committed(millis as u64);
        proof {
            lemma_noted_twice(
                old(self)@.registry,
                old(tx)@.id,
                TransactionState::Committing,
                TransactionState::Committed,
            );
        }
        Ok(CommitStep::Committed)
    }

    /// Rolls the transaction back: undoes the operations that were applied,
    /// the last applied first and as far as they can be undone, gives back
    /// the locks in the opposite order of their taking, and ends in
    /// `RolledBack`.
    ///
    /// A transaction that is over, or is being rolled back, is refused and
    /// nothing changes. Else the transaction ends in `RolledBack` whatever
    /// the undoing met with; where an operation could not be undone, that is
    /// reported by the result. With nothing applied there is nothing to undo
    /// and the rollback succeeds.
    pub fn rollback<E: ResourceExecutor>(&mut self, tx: &mut TransactionContext, executor: &E) -> (r:
        Result<(), CaptureError>)
        ensures
            old(tx)@.wf() ==> {
                &&& final(tx)@.wf()
                &&& same_transaction(old(tx)@, final(tx)@)
                &&& !may_follow(old(tx)@.current(), TransactionState::RollingBack) ==> {
                    &&& r matches Err(e) && e@ == cannot_roll_back()
                    &&& final(tx)@ == old(tx)@
                    &&& final(self)@ == old(self)@
                }
                &&& may_follow(old(tx)@.current(), TransactionState::RollingBack) ==> {
                    &&& finished_in(
                        TransactionState::RolledBack,
                        old(self)@,
                        final(self)@,
                        old(tx)@,
                        final(tx)@,
                    )
                    &&& final(tx)@.applied == 0
                    &&& final(tx)@.attempts == old(tx)@.attempts
                    &&& final(self)@.metrics == old(self)@.metrics.rolled_back()
                    &&& r matches Err(e) ==> e@ == undo_incomplete()
                    &&& old(tx)@.applied == 0 ==> r.is_ok()
                }
            },
    {
        match tx.state() {
            TransactionState::Initial => {},
            TransactionState::Preparing => {},
            TransactionState::Prepared => {},
            TransactionState::Committing => {},
            _ => {
                let e = CaptureError::new(
                    CaptureErrorKind::Resource(ResourceErrorKind::InvalidState),
                    "Transaction cannot be rolled back",
                );
                return Err(*e);
            },
        }
        if self.roll_back(tx, executor) {
            Ok(())
        } else {
            let e = CaptureError::new(
                CaptureErrorKind::Runtime(RuntimeErrorKind::OperationFailed),
                "Some operations could not be undone",
            );
            Err(*e)
        }
    }

    /// Ends the transaction as `TimedOut` where it is not over and has been
    /// under way for longer than its timeout at the time `now`; it gives back
    /// its locks. Says whether it did.
    pub fn expire(&mut self, tx: &mut TransactionContext, now: Timestamp) -> (timed_out: bool)
        ensures
            old(tx)@.wf() ==> {
                &&& final(tx)@.wf()
                &&& same_transaction(old(tx)@, final(tx)@)
                &&& timed_out == (!old(tx)@.current().is_final() && old(tx)@.start_time@ + old(
                    tx,
                )@.timeout@ < now@)
                &&& timed_out ==> {
                    &&& finished_in(
                        TransactionState::TimedOut,
                        old(self)@,
                        final(self)@,
                        old(tx)@,
                        final(tx)@,
                    )
                    &&& final(tx)@.applied == old(tx)@.applied
                    &&& final(tx)@.attempts == old(tx)@.attempts
                    &&& final(self)@.metrics == old(self)@.metrics.failed()
                }
                &&& !timed_out ==> final(tx)@ == old(tx)@ && final(self)@ == old(self)@
            },
    {
        if tx.state().finished() || !tx.start_time.is_older_than(tx.config.timeout, now) {
            return false;
        }
        self.release(tx);
        tx.advance(TransactionState::TimedOut, "Transaction timed out");
        note(&mut self.active_transactions, &tx.id, TransactionState::TimedOut);
        self.metrics.record_failed();
        true
    }

    /// The last state that was noted of the transaction with the id.
    pub fn get_transaction_state(&self, tx_id: &String) -> (r: Result<
        TransactionState,
        CaptureError,
    >)
        ensures
            match state_in(self@.registry, tx_id@) {
                Some(state) => r == Ok::<TransactionState, CaptureError>(state),
                None => r matches Err(e) && e@ == transaction_not_found(),
            },
    {
        let mut i: usize = 0;
        while i < self.active_transactions.len()
            invariant
                i <= self.active_transactions.len(),
                forall|j: int|
                    0 <= j < i ==> (#[trigger] entries_view(self.active_transactions@)[j]).0
                        != tx_id@,
            decreases self.active_transactions.len() - i,
        {
            if self.active_transactions[i].0 == *tx_id {
                proof {
                    let entries = entries_view(self.active_transactions@);
                    assert(is_first_entry(entries, tx_id@, i as int));
                    let c = choose|c: int| is_first_entry(entries, tx_id@, c);
                    assert(is_first_entry(entries, tx_id@, c));
                    if c < i {
                        assert(entries[c].0 != tx_id@);
                    }
                    if i < c {
                        assert(entries[i as int].0 != tx_id@);
                    }
                }
                return Ok(self.active_transactions[i].1);
            }
            i = i + 1;
        }
        let e = CaptureError::new(
            CaptureErrorKind::Runtime(RuntimeErrorKind::EntityNotFound),
            "Transaction not found",
        );
        Err(*e)
    }
}

/// The error that reports a rollback in which an operation could not be
/// undone.
pub open spec fn undo_incomplete() -> CaptureErrorView {
    CaptureErrorView::plain(
        CaptureErrorKind::Runtime(RuntimeErrorKind::OperationFailed),
        "Some operations could not be undone"@,
    )
}

/// Noting a state of a transaction and then another is noting the second in
/// a registry that already knows the transaction.
pub proof fn lemma_noted_twice(
    registry: Seq<(Seq<char>, TransactionState)>,
    id: Seq<char>,
    first: TransactionState,
    second: TransactionState,
)
    ensures
        noted(noted(registry, id, first), id, second) == noted(registry, id, second),
        state_in(noted(registry, id, second), id) == Some(second),
{
    lemma_noted_known(registry, id, first);
    lemma_noted_known(registry, id, second);
    let once = noted(registry, id, first);
    let direct = noted(registry, id, second);
    if has_entry(registry, id) {
        let w = choose|w: int| 0 <= w < registry.len() && (#[trigger] registry[w]).0 == id;
        lemma_first_entry_exists(registry, id, w);
        let i = choose|i: int| is_first_entry(registry, id, i);
        assert(is_first_entry(registry, id, i));
        assert(once[i].0 == id);
        assert(is_first_entry(once, id, i)) by {
            assert forall|j: int| 0 <= j < i implies (#[trigger] once[j]).0 != id by {
                assert(once[j] == registry[j]);
            }
        }
        let c = choose|c: int| is_first_entry(once, id, c);
        assert(is_first_entry(once, id, c));
        if c < i {
            assert(once[c].0 != id);
        }
        if i < c {
            assert(once[i].0 != id);
        }
        assert(noted(once, id, second) =~= direct);
    } else {
        let i = registry.len() as int;
        assert(once[i].0 == id);
        assert(is_first_entry(once, id, i)) by {
            assert forall|j: int| 0 <= j < i implies (#[trigger] once[j]).0 != id by {
                assert(once[j] == registry[j]);
            }
        }
        let c = choose|c: int| is_first_entry(once, id, c);
        assert(is_first_entry(once, id, c));
        if c < i {
            assert(once[c].0 != id);
        }
        if i < c {
            assert(once[i].0 != id);
        }
        assert(noted(once, id, second) =~= direct);
    }
}

/// A registry in which a state of a transaction was noted knows that state.
pub proof fn lemma_noted_known(
    registry: Seq<(Seq<char>, TransactionState)>,
    id: Seq<char>,
    state: TransactionState,
)
    ensures
        has_entry(noted(registry, id, state), id),
        state_in(noted(registry, id, state), id) == Some(state),
{
    let after = noted(registry, id, state);
    if has_entry(registry, id) {
        let w = choose|w: int| 0 <= w < registry.len() && (#[trigger] registry[w]).0 == id;
        lemma_first_entry_exists(registry, id, w);
        let i = choose|i: int| is_first_entry(registry, id, i);
        assert(is_first_entry(registry, id, i));
        assert(after[i] == (id, state));
        assert(is_first_entry(after, id, i)) by {
            assert forall|j: int| 0 <= j < i implies (#[trigger] after[j]).0 != id by {
                assert(after[j] == registry[j]);
            }
        }
        let c = choose|c: int| is_first_entry(after, id, c);
        assert(is_first_entry(after, id, c));
        if c < i {
            assert(after[c].0 != id);
        }
        if i < c {
            assert(after[i].0 != id);
        }
    } else {
        let i = registry.len() as int;
        assert(after[i] == (id, state));
        assert(is_first_entry(after, id, i)) by {
            assert forall|j: int| 0 <= j < i implies (#[trigger] after[j]).0 != id by {
                assert(after[j] == registry[j]);
            }
        }
        let c = choose|c: int| is_first_entry(after, id, c);
        assert(is_first_entry(after, id, c));
        if c < i {
            assert(after[c].0 != id);
        }
        if i < c {
            assert(after[i].0 != id);
        }
    }
}

/// Where some entry is about the entity, some entry is the first about it.
pub proof fn lemma_first_entry_exists<S>(states: Seq<(Seq<char>, S)>, id: Seq<char>, w: int)
    requires
        0 <= w < states.len(),
        states[w].0 == id,
    ensures
        exists|i: int| is_first_entry(states, id, i),
    decreases w,
{
    if forall|j: int| 0 <= j < w ==> (#[trigger] states[j]).0 != id {
        assert(is_first_entry(states, id, w));
    } else {
        let j = choose|j: int| 0 <= j < w && (#[trigger] states[j]).0 == id;
        lemma_first_entry_exists(states, id, j);
    }
}

/// Whether the table keeps transactions apart: two locks on one resource that
/// different transactions hold go together, so none of them is exclusive.
pub open spec fn keeps_apart(table: Seq<HeldView>) -> bool {
    forall|i: int, j: int|
        0 <= i < table.len() && 0 <= j < table.len() && (#[trigger] table[i]).resource_id == (
        #[trigger] table[j]).resource_id && table[i].transaction_id != table[j].transaction_id
            ==> compatible(table[i].lock, table[j].lock)
}

/// Granting keeps transactions apart: where the table does so and none of
/// its locks stands in the way of a request of the transaction, the table
/// with the requests granted, in whatever order, still does so.
pub proof fn lemma_grant_keeps_apart(
    table: Seq<HeldView>,
    transaction: Seq<char>,
    requests: Seq<RequestView>,
    granted: Seq<RequestView>,
)
    requires
        keeps_apart(table),
        !blocked(table, transaction, requests),
        granted.to_multiset() == requests.to_multiset(),
    ensures
        keeps_apart(table + granted_to(transaction, granted)),
{
    let added = granted_to(transaction, granted);
    let after = table + added;
    assert forall|i: int, j: int|
        0 <= i < after.len() && 0 <= j < after.len() && (#[trigger] after[i]).resource_id == (
        #[trigger] after[j]).resource_id && after[i].transaction_id
            != after[j].transaction_id implies compatible(after[i].lock, after[j].lock) by {
        if i < table.len() && j < table.len() {
            assert(after[i] == table[i] && after[j] == table[j]);
        } else if i < table.len() {
            lemma_granted_was_asked(table, transaction, requests, granted, i, j - table.len());
        } else if j < table.len() {
            lemma_granted_was_asked(table, transaction, requests, granted, j, i - table.len());
        } else {
            assert(after[i].transaction_id == transaction);
            assert(after[j].transaction_id == transaction);
        }
    }
}

/// A granted request was asked for, so the lock at the place `i` of the table
/// does not stand in its way.
proof fn lemma_granted_was_asked(
    table: Seq<HeldView>,
    transaction: Seq<char>,
    requests: Seq<RequestView>,
    granted: Seq<RequestView>,
    i: int,
    g: int,
)
    requires
        !blocked(table, transaction, requests),
        granted.to_multiset() == requests.to_multiset(),
        0 <= i < table.len(),
        0 <= g < granted.len(),
    ensures
        !stands_in_way(table[i], transaction, granted[g]),
{
    assert(granted.contains(granted[g]));
    vstd::seq_lib::to_multiset_contains(granted, granted[g]);
    vstd::seq_lib::to_multiset_contains(requests, granted[g]);
    assert(requests.to_multiset().count(granted[g]) > 0);
    assert(requests.contains(granted[g]));
    let k = choose|k: int| 0 <= k < requests.len() && requests[k] == granted[g];
    assert(!contended(table, transaction, requests[k]));
}

/// Every lock that is left after a transaction gave back its locks was in
/// the table before.
pub proof fn lemma_release_leaves_old_locks(table: Seq<HeldView>, transaction: Seq<char>, i: int)
    requires
        0 <= i < without_holder(table, transaction).len(),
    ensures
        table.contains(without_holder(table, transaction)[i]),
    decreases table.len(),
{
    if table.len() > 0 {
        let rest = table.drop_last();
        let kept = without_holder(table, transaction);
        let kept_rest = without_holder(rest, transaction);
        if table.last().transaction_id != transaction && i == kept.len() - 1 {
            assert(table[table.len() - 1] == kept[i]);
        } else {
            assert(kept[i] == kept_rest[i]);
            lemma_release_leaves_old_locks(rest, transaction, i);
            let j = choose|j: int| 0 <= j < rest.len() && rest[j] == kept_rest[i];
            assert(table[j] == kept[i]);
        }
    }
}

/// Giving back keeps transactions apart: a table that does so still does so
/// after a transaction gave back its locks.
pub proof fn lemma_release_keeps_apart(table: Seq<HeldView>, transaction: Seq<char>)
    requires
        keeps_apart(table),
    ensures
        keeps_apart(without_holder(table, transaction)),
{
    let kept = without_holder(table, transaction);
    assert forall|i: int, j: int|
        0 <= i < kept.len() && 0 <= j < kept.len() && (#[trigger] kept[i]).resource_id == (
        #[trigger] kept[j]).resource_id && kept[i].transaction_id
            != kept[j].transaction_id implies compatible(kept[i].lock, kept[j].lock) by {
        lemma_release_leaves_old_locks(table, transaction, i);
        lemma_release_leaves_old_locks(table, transaction, j);
        let a = choose|a: int| 0 <= a < table.len() && table[a] == kept[i];
        let b = choose|b: int| 0 <= b < table.len() && table[b] == kept[j];
        assert(compatible(table[a].lock, table[b].lock));
    }
}

/// A successful `prepare` keeps transactions apart.
pub proof fn lemma_prepared_keeps_apart(
    before: CoordinatorView,
    after: CoordinatorView,
    tx_before: ContextView,
    tx_after: ContextView,
)
    requires
        keeps_apart(before.locks),
        prepared(before, after, tx_before, tx_after),
        !blocked(
            before.locks,
            tx_before.id,
            wanted_all(tx_before.operations, tx_before.isolation_level),
        ),
    ensures
        keeps_apart(after.locks),
{
    lemma_grant_keeps_apart(
        before.locks,
        tx_before.id,
        wanted_all(tx_before.operations, tx_before.isolation_level),
        tx_after.held.skip(tx_before.held.len() as int),
    );
}

} // verus!
