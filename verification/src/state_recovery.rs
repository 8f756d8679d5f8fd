//! Snapshots of the states of the entities that are watched, recovery points that refer
//! to them with an integrity hash, and the way back from either.
//!
//! Persisting a snapshot and loading it again are the caller's work. This
//! module makes the snapshot, checks what was loaded against the recovery
//! point, and puts the entities back into the saved states.

use vstd::prelude::*;
use std::collections::HashMap;
use crate::capture_error::{
    CaptureError, CaptureErrorKind, CaptureErrorView, ConfigErrorKind, RuntimeErrorKind,
    empty_context,
};
use crate::state_machine::bump;
use crate::state_sync::{StateSync, SyncView, restore_reason};
use crate::state_validator::kept_last;
use crate::text::{numbered, numbered_text};
use crate::time::{
    Duration, Stamped, Timestamp, lemma_retained_through, retain_fresh, retained, stamp_of,
    NANOS_PER_SEC,
};

verus! {

/// The format version of the snapshots that this module makes and accepts.
pub open spec fn current_version() -> Seq<char> {
    "1.0"@
}

/// The entries of a list of pairs of entity id and state, as plain values.
pub open spec fn entries_view<S>(entries: Seq<(String, S)>) -> Seq<(Seq<char>, S)> {
    entries.map_values(|e: (String, S)| (e.0@, e.1))
}

/// Whether some entry is about the entity.
pub open spec fn has_entry<S>(states: Seq<(Seq<char>, S)>, entity_id: Seq<char>) -> bool {
    exists|i: int| 0 <= i < states.len() && (#[trigger] states[i]).0 == entity_id
}

/// Whether `i` is the place of the first entry about the entity.
pub open spec fn is_first_entry<S>(states: Seq<(Seq<char>, S)>, entity_id: Seq<char>, i: int) -> bool {
    &&& 0 <= i < states.len()
    &&& states[i].0 == entity_id
    &&& forall|j: int| 0 <= j < i ==> (#[trigger] states[j]).0 != entity_id
}

/// The state that the entries hold for the entity: that of the first entry
/// about it.
pub open spec fn state_in<S>(states: Seq<(Seq<char>, S)>, entity_id: Seq<char>) -> Option<S> {
    if has_entry(states, entity_id) {
        Some(states[choose|i: int| is_first_entry(states, entity_id, i)].1)
    } else {
        None
    }
}

/// What a `StateSnapshot` holds, as plain values.
pub struct SnapshotView<S> {
    pub snapshot_id: Seq<char>,
    pub timestamp: Timestamp,
    /// One entry for each entity: its id and its state.
    pub states: Seq<(Seq<char>, S)>,
    pub metadata: Map<String, String>,
    pub version: Seq<char>,
}

/// A point-in-time snapshot of the states of the entities.
#[derive(Clone, Debug)]
pub struct StateSnapshot<S> {
    snapshot_id: String,
    timestamp: Timestamp,
    states: Vec<(String, S)>,
    metadata: HashMap<String, String>,
    version: String,
}

impl<S> View for StateSnapshot<S> {
    type V = SnapshotView<S>;

    closed spec fn view(&self) -> SnapshotView<S> {
        SnapshotView {
            snapshot_id: self.snapshot_id@,
            timestamp: self.timestamp,
            states: entries_view(self.states@),
            metadata: self.metadata@,
            version: self.version@,
        }
    }
}

impl<S: Copy> StateSnapshot<S> {
    /// A snapshot of the given parts, as it comes back from storage.
    pub fn new(
        snapshot_id: String,
        timestamp: Timestamp,
        states: Vec<(String, S)>,
        metadata: HashMap<String, String>,
        version: String,
    ) -> (s: StateSnapshot<S>)
        ensures
            s@ == (SnapshotView {
                snapshot_id: snapshot_id@,
                timestamp,
                states: entries_view(states@),
                metadata: metadata@,
                version: version@,
            }),
    {
        StateSnapshot { snapshot_id, timestamp, states, metadata, version }
    }

    /// The id of the snapshot.
    pub fn snapshot_id(&self) -> (id: &String)
        ensures
            id@ == self@.snapshot_id,
    {
        &self.snapshot_id
    }

    /// The time the snapshot was taken.
    pub fn timestamp(&self) -> (t: Timestamp)
        ensures
            t == self@.timestamp,
    {
        self.timestamp
    }

    /// The entries of the snapshot: one pair of entity id and state for each
    /// entity.
    pub fn states(&self) -> (entries: &Vec<(String, S)>)
        ensures
            entries_view(entries@) == self@.states,
    {
        &self.states
    }

    /// The metadata that came with the snapshot.
    pub fn metadata(&self) -> (m: &HashMap<String, String>)
        ensures
            m@ == self@.metadata,
    {
        &self.metadata
    }

    /// The format version of the snapshot.
    pub fn version(&self) -> (v: &String)
        ensures
            v@ == self@.version,
    {
        &self.version
    }

    /// The state that the snapshot holds for the entity, if any.
    pub fn state_of(&self, entity_id: &String) -> (state: Option<S>)
        ensures
            state == state_in(self@.states, entity_id@),
    {
        let mut i: usize = 0;
        while i < self.states.len()
            invariant
                i <= self.states.len(),
                forall|j: int| 0 <= j < i ==> (#[trigger] entries_view(self.states@)[j]).0 != entity_id@,
            decreases self.states.len() - i,
        {
            if self.states[i].0 == *entity_id {
                proof {
                    let states = entries_view(self.states@);
                    assert(is_first_entry(states, entity_id@, i as int));
                    let c = choose|c: int| is_first_entry(states, entity_id@, c);
                    assert(is_first_entry(states, entity_id@, c));
                    if c < i {
                        assert(states[c].0 != entity_id@);
                    }
                    if i < c {
                        assert(states[i as int].0 != entity_id@);
                    }
                }
                return Some(self.states[i].1);
            }
            i = i + 1;
        }
        None
    }

    /// A copy of this snapshot.
    pub fn duplicate(&self) -> (copy: StateSnapshot<S>)
        ensures
            copy@ == self@,
    {
        let mut states: Vec<(String, S)> = Vec::new();
        let mut i: usize = 0;
        while i < self.states.len()
            invariant
                i <= self.states.len(),
                entries_view(states@) == entries_view(self.states@).take(i as int),
            decreases self.states.len() - i,
        {
            let ghost so_far = entries_view(states@);
            states.push((self.states[i].0.clone(), self.states[i].1));
            i = i + 1;
            proof {
                assert(entries_view(states@) =~= so_far.push(entries_view(self.states@)[i - 1]));
                assert(entries_view(states@) =~= entries_view(self.states@).take(i as int));
            }
        }
        proof {
            assert(entries_view(self.states@).take(i as int) =~= entries_view(self.states@));
        }
        StateSnapshot {
            snapshot_id: self.snapshot_id.clone(),
            timestamp: self.timestamp,
            states,
            metadata: self.metadata.clone(),
            version: self.version.clone(),
        }
    }
}

/// What a `RecoveryPoint` holds, as plain values.
pub struct RecoveryPointView {
    pub id: Seq<char>,
    pub timestamp: Timestamp,
    pub snapshot_id: Seq<char>,
    pub validation_hash: Seq<char>,
    pub metadata: Map<String, String>,
}

/// A recovery point: a pointer to a snapshot with the hash that the snapshot
/// must have.
#[derive(Clone, Debug, PartialEq, Eq)]
pub struct RecoveryPoint {
    id: String,
    timestamp: Timestamp,
    snapshot_id: String,
    validation_hash: String,
    metadata: HashMap<String, String>,
}

impl View for RecoveryPoint {
    type V = RecoveryPointView;

    closed spec fn view(&self) -> RecoveryPointView {
        RecoveryPointView {
            id: self.id@,
            timestamp: self.timestamp,
            snapshot_id: self.snapshot_id@,
            validation_hash: self.validation_hash@,
            metadata: self.metadata@,
        }
    }
}

impl RecoveryPoint {
    /// A recovery point of the given parts.
    pub fn new(
        id: String,
        timestamp: Timestamp,
        snapshot_id: String,
        validation_hash: String,
        metadata: HashMap<String, String>,
    ) -> (p: RecoveryPoint)
        ensures
            p@ == (RecoveryPointView {
                id: id@,
                timestamp,
                snapshot_id: snapshot_id@,
                validation_hash: validation_hash@,
                metadata: metadata@,
            }),
    {
        RecoveryPoint { id, timestamp, snapshot_id, validation_hash, metadata }
    }

    /// The id of the recovery point.
    pub fn id(&self) -> (id: &String)
        ensures
            id@ == self@.id,
    {
        &self.id
    }

    /// The time the recovery point was made.
    pub fn timestamp(&self) -> (t: Timestamp)
        ensures
            t == self@.timestamp,
    {
        self.timestamp
    }

    /// The id of the snapshot that the point refers to.
    pub fn snapshot_id(&self) -> (id: &String)
        ensures
            id@ == self@.snapshot_id,
    {
        &self.snapshot_id
    }

    /// The hash that the snapshot must have.
    pub fn validation_hash(&self) -> (h: &String)
        ensures
            h@ == self@.validation_hash,
    {
        &self.validation_hash
    }

    /// The metadata that came with the point.
    pub fn metadata(&self) -> (m: &HashMap<String, String>)
        ensures
            m@ == self@.metadata,
    {
        &self.metadata
    }

    /// Whether `computed`, the hash of a snapshot at hand, is the hash that
    /// this point asks for.
    pub fn hash_matches(&self, computed: &String) -> (same: bool)
        ensures
            same == (self@.validation_hash == computed@),
    {
        self.validation_hash == *computed
    }

    /// A copy of this recovery point.
    pub fn duplicate(&self) -> (copy: RecoveryPoint)
        ensures
            copy@ == self@,
    {
        RecoveryPoint {
            id: self.id.clone(),
            timestamp: self.timestamp,
            snapshot_id: self.snapshot_id.clone(),
            validation_hash: self.validation_hash.clone(),
            metadata: self.metadata.clone(),
        }
    }
}

/// Configuration for state recovery.
#[derive(Clone, Debug)]
pub struct StateRecoveryConfig {
    pub snapshot_interval: Duration,
    pub max_snapshots: usize,
    pub snapshot_storage_path: String,
    pub validation_enabled: bool,
    pub compression_enabled: bool,
    pub retention_period: Duration,
}

impl Default for StateRecoveryConfig {
    /// A snapshot every minute, ten snapshots at most, kept for a day, with
    /// validation and without compression.
    fn default() -> (c: StateRecoveryConfig)
        ensures
            c.snapshot_interval@ == 60 * NANOS_PER_SEC,
            c.max_snapshots == 10,
            c.snapshot_storage_path@ == "snapshots"@,
            c.validation_enabled,
            !c.compression_enabled,
            c.retention_period@ == 86400 * NANOS_PER_SEC,
    {
        StateRecoveryConfig {
            snapshot_interval: Duration::from_secs(60),
            max_snapshots: 10,
            snapshot_storage_path: "snapshots".to_owned(),
            validation_enabled: true,
            compression_enabled: false,
            retention_period: Duration::from_secs(86400),
        }
    }
}

/// The digest capability of the recovery manager: it produces and verifies
/// the integrity hash of a snapshot.
pub trait StateValidator<S> {
    /// Whether the snapshot is sound.
    fn validate_snapshot(&self, snapshot: &StateSnapshot<S>) -> Result<bool, CaptureError>;

    /// Whether the recovery point is sound.
    fn validate_recovery_point(&self, point: &RecoveryPoint) -> Result<bool, CaptureError>;

    /// The integrity hash of the snapshot.
    fn generate_validation_hash(&self, snapshot: &StateSnapshot<S>) -> String;
}

/// The entities of a list, as plain values.
pub open spec fn syncs_view<S: Copy + Eq>(entities: Seq<StateSync<S>>) -> Seq<SyncView<S>> {
    entities.map_values(|e: StateSync<S>| e@)
}

/// The entries of a snapshot of the entities: for each entity, in order, its
/// id and its current state.
pub open spec fn entity_states<S>(group: Seq<SyncView<S>>) -> Seq<(Seq<char>, S)> {
    group.map_values(|e: SyncView<S>| (e.engine_id, e.machine.current))
}

/// Whether no two entities share an id.
pub open spec fn ids_unique<S>(group: Seq<SyncView<S>>) -> bool {
    forall|i: int, j: int|
        0 <= i < j < group.len() ==> (#[trigger] group[i]).engine_id != (
        #[trigger] group[j]).engine_id
}

/// Whether `after` is the entity `before` put back into `target`: without a
/// target nothing has changed; with one, the local machine has taken the way
/// to the target as a recorded transition and nothing else has changed.
pub open spec fn entity_restored<S>(before: SyncView<S>, after: SyncView<S>, target: Option<S>) -> bool {
    match target {
        None => after == before,
        Some(state) => {
            let entry = after.machine.history.last();
            &&& after.engine_id == before.engine_id
            &&& after.metrics == before.metrics
            &&& after.config == before.config
            &&& after.machine == before.machine.accept(entry)
            &&& entry.from == before.machine.current
            &&& entry.to == state
            &&& entry.reason == Some(restore_reason())
        },
    }
}

/// Whether `after` are the entities `before` put back into the states that
/// the entries hold for them. An entity that the entries do not know stays
/// as it is.
pub open spec fn restored<S>(
    before: Seq<SyncView<S>>,
    after: Seq<SyncView<S>>,
    states: Seq<(Seq<char>, S)>,
) -> bool {
    &&& after.len() == before.len()
    &&& forall|i: int|
        0 <= i < before.len() ==> entity_restored(
            before[i],
            #[trigger] after[i],
            state_in(states, before[i].engine_id),
        )
}

/// A snapshot holds for every entity the state it was in when the snapshot
/// was taken: among entities with different ids, looking up the id of an
/// entity in the snapshot of all of them gives that entity's own state. So
/// restoring from a snapshot while nothing has changed in between puts every
/// entity into the state it is in.
pub proof fn lemma_snapshot_round_trip<S>(group: Seq<SyncView<S>>, k: int)
    requires
        ids_unique(group),
        0 <= k < group.len(),
    ensures
        state_in(entity_states(group), group[k].engine_id) == Some(group[k].machine.current),
{
    let states = entity_states(group);
    let id = group[k].engine_id;
    assert(states[k].0 == id);
    assert forall|j: int| 0 <= j < k implies (#[trigger] states[j]).0 != id by {
        assert(group[j].engine_id != group[k].engine_id);
    }
    assert(is_first_entry(states, id, k));
    let c = choose|c: int| is_first_entry(states, id, c);
    assert(is_first_entry(states, id, c));
    if c < k {
        assert(states[c].0 != id);
    }
    if k < c {
        assert(states[k].0 != id);
    }
}

/// The round trip of snapshot and restore: entities with different ids that
/// are restored from the snapshot of their own states are, one for one, in
/// the states they were in, and under the ids they had. None is added and
/// none is dropped.
pub proof fn lemma_restore_of_own_snapshot<S>(before: Seq<SyncView<S>>, after: Seq<SyncView<S>>)
    requires
        ids_unique(before),
        restored(before, after, entity_states(before)),
    ensures
        after.len() == before.len(),
        forall|k: int|
            0 <= k < before.len() ==> (#[trigger] after[k]).machine.current
                == before[k].machine.current && after[k].engine_id == before[k].engine_id,
{
    assert forall|k: int| 0 <= k < before.len() implies (#[trigger] after[k]).machine.current
        == before[k].machine.current && after[k].engine_id == before[k].engine_id by {
        lemma_snapshot_round_trip(before, k);
    }
}

/// The error that answers a snapshot of a format that is not understood.
pub open spec fn unsupported_version() -> CaptureErrorView {
    CaptureErrorView {
        kind: CaptureErrorKind::Configuration(ConfigErrorKind::ValidationFailed),
        message: "Unsupported snapshot version"@,
        causes: Seq::empty(),
        context: empty_context(),
    }
}

/// The error that answers the id of a recovery point that is not known.
pub open spec fn point_not_found() -> CaptureErrorView {
    CaptureErrorView {
        kind: CaptureErrorKind::Runtime(RuntimeErrorKind::EntityNotFound),
        message: "Recovery point not found"@,
        causes: Seq::empty(),
        context: empty_context(),
    }
}

/// The error that answers a snapshot that is not the one a recovery point
/// refers to.
pub open spec fn wrong_snapshot() -> CaptureErrorView {
    CaptureErrorView {
        kind: CaptureErrorKind::Runtime(RuntimeErrorKind::StateError),
        message: "Snapshot does not belong to the recovery point"@,
        causes: Seq::empty(),
        context: empty_context(),
    }
}

/// The error that answers a snapshot whose hash is not the one its recovery
/// point asks for.
pub open spec fn integrity_failure() -> CaptureErrorView {
    CaptureErrorView {
        kind: CaptureErrorKind::Runtime(RuntimeErrorKind::StateError),
        message: "Snapshot integrity check failed"@,
        causes: Seq::empty(),
        context: empty_context(),
    }
}

/// The snapshots of a list, as plain values.
pub open spec fn snapshots_view<S>(snapshots: Seq<StateSnapshot<S>>) -> Seq<SnapshotView<S>> {
    snapshots.map_values(|s: StateSnapshot<S>| s@)
}

/// The recovery points of a list, as plain values.
pub open spec fn points_view(points: Seq<RecoveryPoint>) -> Seq<RecoveryPointView> {
    points.map_values(|p: RecoveryPoint| p@)
}

/// Whether `i` is the place of the first recovery point with the id.
pub open spec fn is_first_point(points: Seq<RecoveryPointView>, id: Seq<char>, i: int) -> bool {
    &&& 0 <= i < points.len()
    &&& points[i].id == id
    &&& forall|j: int| 0 <= j < i ==> (#[trigger] points[j]).id != id
}

/// Whether some recovery point has the id.
pub open spec fn has_point(points: Seq<RecoveryPointView>, id: Seq<char>) -> bool {
    exists|i: int| 0 <= i < points.len() && (#[trigger] points[i]).id == id
}

/// The function that gives the time at which a snapshot was taken.
pub open spec fn snapshot_stamp<S>() -> spec_fn(SnapshotView<S>) -> Timestamp {
    |s: SnapshotView<S>| s.timestamp
}

/// The function that gives the time at which a recovery point was made.
pub open spec fn point_stamp() -> spec_fn(RecoveryPointView) -> Timestamp {
    |p: RecoveryPointView| p.timestamp
}

impl<S> Stamped for StateSnapshot<S> {
    open spec fn stamp(&self) -> Timestamp {
        self@.timestamp
    }

    fn stamped_at(&self) -> (t: Timestamp) {
        self.timestamp
    }
}

impl Stamped for RecoveryPoint {
    open spec fn stamp(&self) -> Timestamp {
        self@.timestamp
    }

    fn stamped_at(&self) -> (t: Timestamp) {
        self.timestamp
    }
}

/// The ids of a list, as plain values.
pub open spec fn ids_view(ids: Seq<String>) -> Seq<Seq<char>> {
    ids.map_values(|id: String| id@)
}

/// Whether a snapshot with the id is among the snapshots.
pub open spec fn keeps<S>(snapshots: Seq<SnapshotView<S>>, id: Seq<char>) -> bool {
    exists|i: int| 0 <= i < snapshots.len() && (#[trigger] snapshots[i]).snapshot_id == id
}

/// Of the ids, those of snapshots that are not among the snapshots, in their
/// order.
pub open spec fn not_kept<S>(snapshots: Seq<SnapshotView<S>>, ids: Seq<Seq<char>>) -> Seq<
    Seq<char>,
>
    decreases ids.len(),
{
    if ids.len() == 0 {
        Seq::empty()
    } else if keeps(snapshots, ids.last()) {
        not_kept(snapshots, ids.drop_last())
    } else {
        not_kept(snapshots, ids.drop_last()).push(ids.last())
    }
}

/// The mathematical model of a `StateRecoveryManager`.
pub struct ManagerView<S> {
    pub snapshot_interval: Duration,
    pub max_snapshots: nat,
    pub snapshot_storage_path: Seq<char>,
    pub validation_enabled: bool,
    pub compression_enabled: bool,
    pub retention_period: Duration,
    /// The snapshots kept in memory, oldest first.
    pub snapshots: Seq<SnapshotView<S>>,
    /// The recovery points, oldest first.
    pub recovery_points: Seq<RecoveryPointView>,
    /// The number that the next snapshot or recovery point gets.
    pub sequence: u64,
}

impl<S> ManagerView<S> {
    /// The manager after the entries that are older than the retention
    /// period at the time `now` are gone, and of the snapshots that are left
    /// only the newest, up to the bound on their number.
    pub open spec fn cleaned(self, now: Timestamp) -> ManagerView<S> {
        ManagerView {
            snapshots: kept_last(
                retained(self.snapshots, snapshot_stamp(), self.retention_period, now),
                self.max_snapshots,
            ),
            recovery_points: retained(
                self.recovery_points,
                point_stamp(),
                self.retention_period,
                now,
            ),
            ..self
        }
    }
}

/// Manages state recovery operations.
#[verifier::reject_recursive_types(S)]
pub struct StateRecoveryManager<S> {
    config: StateRecoveryConfig,
    snapshots: Vec<StateSnapshot<S>>,
    recovery_points: Vec<RecoveryPoint>,
    validator: Box<dyn StateValidator<S>>,
    sequence: u64,
}

impl<S> View for StateRecoveryManager<S> {
    type V = ManagerView<S>;

    closed spec fn view(&self) -> ManagerView<S> {
        ManagerView {
            snapshot_interval: self.config.snapshot_interval,
            max_snapshots: self.config.max_snapshots as nat,
            snapshot_storage_path: self.config.snapshot_storage_path@,
            validation_enabled: self.config.validation_enabled,
            compression_enabled: self.config.compression_enabled,
            retention_period: self.config.retention_period,
            snapshots: snapshots_view(self.snapshots@),
            recovery_points: points_view(self.recovery_points@),
            sequence: self.sequence,
        }
    }
}

/// Puts every entity that the entries know into the state they hold for it.
fn apply_states<S: Copy + Eq>(snapshot: &StateSnapshot<S>, entities: &mut Vec<StateSync<S>>)
    ensures
        restored(syncs_view(old(entities)@), syncs_view(final(entities)@), snapshot@.states),
{
    let mut i: usize = 0;
    while i < entities.len()
        invariant
            i <= entities.len(),
            entities@.len() == old(entities)@.len(),
            forall|k: int|
                0 <= k < i ==> entity_restored(
                    syncs_view(old(entities)@)[k],
                    #[trigger] syncs_view(entities@)[k],
                    state_in(snapshot@.states, syncs_view(old(entities)@)[k].engine_id),
                ),
            forall|k: int| i <= k < entities@.len() ==> entities@[k] == old(entities)@[k],
        decreases entities.len() - i,
    {
        let ghost before = entities@;
        let target = snapshot.state_of(entities[i].engine_id());
        match target {
            Some(state) => {
                entities[i].restore_state(state);
            },
            None => {},
        }
        proof {
            assert forall|k: int| 0 <= k < i implies entity_restored(
                syncs_view(old(entities)@)[k],
                #[trigger] syncs_view(entities@)[k],
                state_in(snapshot@.states, syncs_view(old(entities)@)[k].engine_id),
            ) by {
                assert(entities@[k] == before[k]);
                assert(syncs_view(entities@)[k] == syncs_view(before)[k]);
            }
            assert forall|k: int| i < k < entities@.len() implies entities@[k] == old(entities)@[k] by {
                assert(entities@[k] == before[k]);
            }
        }
        i = i + 1;
    }
}

impl<S: Copy + Eq> StateRecoveryManager<S> {
    /// A manager without snapshots and recovery points.
    pub fn new(config: StateRecoveryConfig, validator: Box<dyn StateValidator<S>>) -> (m:
        StateRecoveryManager<S>)
        ensures
            m@ == (ManagerView::<S> {
                snapshot_interval: config.snapshot_interval,
                max_snapshots: config.max_snapshots as nat,
                snapshot_storage_path: config.snapshot_storage_path@,
                validation_enabled: config.validation_enabled,
                compression_enabled: config.compression_enabled,
                retention_period: config.retention_period,
                snapshots: Seq::empty(),
                recovery_points: Seq::empty(),
                sequence: 0,
            }),
    {
        let m = StateRecoveryManager {
            config,
            snapshots: Vec::new(),
            recovery_points: Vec::new(),
            validator,
            sequence: 0,
        };
        proof {
            assert(snapshots_view(m.snapshots@) =~= Seq::<SnapshotView<S>>::empty());
            assert(points_view(m.recovery_points@) =~= Seq::<RecoveryPointView>::empty());
        }
        m
    }

    /// The configuration.
    pub fn config(&self) -> (c: &StateRecoveryConfig)
        ensures
            c.snapshot_interval == self@.snapshot_interval,
            c.max_snapshots == self@.max_snapshots,
            c.snapshot_storage_path@ == self@.snapshot_storage_path,
            c.validation_enabled == self@.validation_enabled,
            c.compression_enabled == self@.compression_enabled,
            c.retention_period == self@.retention_period,
    {
        &self.config
    }

    /// The id of the snapshot that the recovery point with the id refers to:
    /// the snapshot to load before the point can be restored.
    pub fn snapshot_of_point(&self, point_id: &String) -> (r: Result<String, CaptureError>)
        ensures
            !has_point(self@.recovery_points, point_id@) ==> (r matches Err(e) && e@
                == point_not_found()),
            has_point(self@.recovery_points, point_id@) ==> (r matches Ok(id) && exists|i: int|
                is_first_point(self@.recovery_points, point_id@, i) && id@
                    == (#[trigger] self@.recovery_points[i]).snapshot_id),
    {
        match self.find_recovery_point(point_id) {
            Some(point) => Ok(point.snapshot_id.clone()),
            None => {
                let e = CaptureError::new(
                    CaptureErrorKind::Runtime(RuntimeErrorKind::EntityNotFound),
                    "Recovery point not found",
                );
                Err(*e)
            },
        }
    }

    /// Whether a snapshot with the id is kept in memory.
    pub fn keeps_snapshot(&self, snapshot_id: &String) -> (kept: bool)
        ensures
            kept == keeps(self@.snapshots, snapshot_id@),
    {
        let mut i: usize = 0;
        while i < self.snapshots.len()
            invariant
                i <= self.snapshots.len(),
                forall|j: int|
                    0 <= j < i ==> (#[trigger] snapshots_view(self.snapshots@)[j]).snapshot_id
                        != snapshot_id@,
            decreases self.snapshots.len() - i,
        {
            if self.snapshots[i].snapshot_id == *snapshot_id {
                assert(snapshots_view(self.snapshots@)[i as int].snapshot_id == snapshot_id@);
                return true;
            }
            i = i + 1;
        }
        false
    }

    /// Of the ids of the snapshots that storage holds, those of snapshots
    /// that are no longer kept in memory, in their order: the snapshots to
    /// delete from storage after a cleanup.
    pub fn orphaned(&self, stored: &Vec<String>) -> (gone: Vec<String>)
        ensures
            ids_view(gone@) == not_kept(self@.snapshots, ids_view(stored@)),
    {
        let mut gone: Vec<String> = Vec::new();
        let mut i: usize = 0;
        proof {
            assert(ids_view(stored@).take(0) =~= Seq::<Seq<char>>::empty());
            assert(ids_view(gone@) =~= Seq::<Seq<char>>::empty());
        }
        while i < stored.len()
            invariant
                i <= stored.len(),
                ids_view(gone@) == not_kept(self@.snapshots, ids_view(stored@).take(i as int)),
            decreases stored.len() - i,
        {
            let ghost all = ids_view(stored@);
            let ghost so_far = ids_view(gone@);
            proof {
                assert(all.take(i + 1).drop_last() =~= all.take(i as int));
                assert(all.take(i + 1).last() == all[i as int]);
            }
            if !self.keeps_snapshot(&stored[i]) {
                gone.push(stored[i].clone());
                proof {
                    assert(ids_view(gone@) =~= so_far.push(all[i as int]));
                }
            }
            i = i + 1;
        }
        proof {
            assert(ids_view(stored@).take(i as int) =~= ids_view(stored@));
        }
        gone
    }

    /// The snapshots kept in memory, oldest first.
    pub fn snapshots(&self) -> (s: &Vec<StateSnapshot<S>>)
        ensures
            snapshots_view(s@) == self@.snapshots,
    {
        &self.snapshots
    }

    /// The recovery points, oldest first.
    pub fn recovery_points(&self) -> (p: &Vec<RecoveryPoint>)
        ensures
            points_view(p@) == self@.recovery_points,
    {
        &self.recovery_points
    }

    /// Makes a snapshot of the current states of the entities: one entry for
    /// each entity, in order, under the next snapshot id.
    pub fn generate_snapshot(
        &mut self,
        entities: &Vec<StateSync<S>>,
        metadata: HashMap<String, String>,
    ) -> (snapshot: StateSnapshot<S>)
        ensures
            snapshot@.snapshot_id == numbered_text("snapshot-"@, old(self)@.sequence as nat),
            snapshot@.states == entity_states(syncs_view(entities@)),
            snapshot@.metadata == metadata@,
            snapshot@.version == current_version(),
            final(self)@ == (ManagerView { sequence: bump(old(self)@.sequence), ..old(self)@ }),
    {
        let mut states: Vec<(String, S)> = Vec::new();
        let mut i: usize = 0;
        while i < entities.len()
            invariant
                i <= entities.len(),
                entries_view(states@) == entity_states(syncs_view(entities@)).take(i as int),
            decreases entities.len() - i,
        {
            let ghost so_far = entries_view(states@);
            let id = entities[i].engine_id().clone();
            let state = *entities[i].state_machine().current_state();
            states.push((id, state));
            i = i + 1;
            proof {
                let all = entity_states(syncs_view(entities@));
                assert(entries_view(states@) =~= so_far.push(all[i - 1]));
                assert(entries_view(states@) =~= all.take(i as int));
            }
        }
        proof {
            let all = entity_states(syncs_view(entities@));
            assert(all.take(i as int) =~= all);
        }
        let snapshot_id = numbered("snapshot-", self.sequence);
        self.sequence = self.sequence.wrapping_add(1);
        StateSnapshot {
            snapshot_id,
            timestamp: Timestamp::now(),
            states,
            metadata,
            version: "1.0".to_owned(),
        }
    }

    /// Keeps the snapshot in memory as the newest one. Beyond the bound on
    /// their number the oldest snapshots leave.
    pub fn remember_snapshot(&mut self, snapshot: StateSnapshot<S>)
        ensures
            final(self)@ == (ManagerView {
                snapshots: kept_last(
                    old(self)@.snapshots.push(snapshot@),
                    old(self)@.max_snapshots,
                ),
                ..old(self)@
            }),
    {
        let ghost before = snapshots_view(self.snapshots@);
        self.snapshots.push(snapshot);
        proof {
            assert(snapshots_view(self.snapshots@) =~= before.push(snapshot@));
        }
        if self.snapshots.len() > self.config.max_snapshots {
            let ghost all = snapshots_view(self.snapshots@);
            let excess = self.snapshots.len() - self.config.max_snapshots;
            let tail = self.snapshots.split_off(excess);
            self.snapshots = tail;
            proof {
                assert(snapshots_view(self.snapshots@) =~= all.skip(
                    all.len() - self.config.max_snapshots,
                ));
            }
        }
    }

    /// Makes the recovery point for a snapshot whose integrity hash is
    /// `validation_hash`, under the next id, and keeps it.
    pub fn recovery_point_for(
        &mut self,
        snapshot: &StateSnapshot<S>,
        validation_hash: String,
        metadata: HashMap<String, String>,
    ) -> (point: RecoveryPoint)
        ensures
            point@.id == numbered_text("recovery-"@, old(self)@.sequence as nat),
            point@.snapshot_id == snapshot@.snapshot_id,
            point@.validation_hash == validation_hash@,
            point@.metadata == metadata@,
            final(self)@ == (ManagerView {
                recovery_points: old(self)@.recovery_points.push(point@),
                sequence: bump(old(self)@.sequence),
                ..old(self)@
            }),
    {
        let id = numbered("recovery-", self.sequence);
        self.sequence = self.sequence.wrapping_add(1);
        let point = RecoveryPoint {
            id,
            timestamp: Timestamp::now(),
            snapshot_id: snapshot.snapshot_id.clone(),
            validation_hash,
            metadata,
        };
        let ghost before = points_view(self.recovery_points@);
        self.recovery_points.push(point.duplicate());
        proof {
            assert(points_view(self.recovery_points@) =~= before.push(point@));
        }
        point
    }

    /// Makes a recovery point for the snapshot, with the integrity hash that
    /// the digest capability gives for it, and keeps it.
    pub fn create_recovery_point(
        &mut self,
        snapshot: &StateSnapshot<S>,
        metadata: HashMap<String, String>,
    ) -> (point: RecoveryPoint)
        ensures
            point@.id == numbered_text("recovery-"@, old(self)@.sequence as nat),
            point@.snapshot_id == snapshot@.snapshot_id,
            point@.metadata == metadata@,
            final(self)@ == (ManagerView {
                recovery_points: old(self)@.recovery_points.push(point@),
                sequence: bump(old(self)@.sequence),
                ..old(self)@
            }),
    {
        let hash = self.validator.generate_validation_hash(snapshot);
        self.recovery_point_for(snapshot, hash, metadata)
    }

    /// Looks for the first recovery point with the id.
    pub fn find_recovery_point(&self, point_id: &String) -> (found: Option<&RecoveryPoint>)
        ensures
            found.is_some() == has_point(self@.recovery_points, point_id@),
            found matches Some(p) ==> exists|i: int|
                is_first_point(self@.recovery_points, point_id@, i) && p@
                    == #[trigger] self@.recovery_points[i],
    {
        let mut i: usize = 0;
        while i < self.recovery_points.len()
            invariant
                i <= self.recovery_points.len(),
                forall|j: int|
                    0 <= j < i ==> (#[trigger] points_view(self.recovery_points@)[j]).id
                        != point_id@,
            decreases self.recovery_points.len() - i,
        {
            if self.recovery_points[i].id == *point_id {
                proof {
                    let points = points_view(self.recovery_points@);
                    assert(is_first_point(points, point_id@, i as int));
                    assert(self@.recovery_points == points);
                    assert(is_first_point(self@.recovery_points, point_id@, i as int)
                        && self.recovery_points@[i as int]@ == self@.recovery_points[i as int]);
                }
                return Some(&self.recovery_points[i]);
            }
            i = i + 1;
        }
        None
    }

    /// Puts the entities back into the states that the snapshot holds for
    /// them. A snapshot of another format version is refused and nothing
    /// changes.
    pub fn restore_from_snapshot(
        &self,
        snapshot: &StateSnapshot<S>,
        entities: &mut Vec<StateSync<S>>,
    ) -> (r: Result<(), CaptureError>)
        ensures
            snapshot@.version != current_version() ==> {
                &&& r matches Err(e) && e@ == unsupported_version()
                &&& final(entities)@ == old(entities)@
            },
            snapshot@.version == current_version() ==> {
                &&& r.is_ok()
                &&& restored(
                    syncs_view(old(entities)@),
                    syncs_view(final(entities)@),
                    snapshot@.states,
                )
            },
    {
        let expected = "1.0".to_owned();
        if snapshot.version != expected {
            let e = CaptureError::new(
                CaptureErrorKind::Configuration(ConfigErrorKind::ValidationFailed),
                "Unsupported snapshot version",
            );
            return Err(*e);
        }
        apply_states(snapshot, entities);
        Ok(())
    }

    /// Restores the entities from `loaded`, the snapshot that storage gave
    /// for the recovery point `point`, whose integrity hash was computed as
    /// `computed_hash`.
    ///
    /// The snapshot must be the one that the point refers to and, where
    /// validation is enabled, must have the hash that the point asks for.
    /// Where either check fails, or the snapshot is of another format
    /// version, the restore is refused and the entities stay as they are.
    pub fn restore_checked(
        &self,
        point: &RecoveryPoint,
        loaded: &StateSnapshot<S>,
        computed_hash: &String,
        entities: &mut Vec<StateSync<S>>,
    ) -> (r: Result<(), CaptureError>)
        ensures
            r.is_err() ==> final(entities)@ == old(entities)@,
            r.is_ok() ==> restored(
                syncs_view(old(entities)@),
                syncs_view(final(entities)@),
                loaded@.states,
            ),
            r.is_ok() <==> {
                &&& loaded@.snapshot_id == point@.snapshot_id
                &&& (self@.validation_enabled ==> point@.validation_hash == computed_hash@)
                &&& loaded@.version == current_version()
            },
            loaded@.snapshot_id != point@.snapshot_id ==> (r matches Err(e) && e@
                == wrong_snapshot()),
            loaded@.snapshot_id == point@.snapshot_id && self@.validation_enabled
                && point@.validation_hash != computed_hash@ ==> (r matches Err(e) && e@
                == integrity_failure()),
    {
        if loaded.snapshot_id != point.snapshot_id {
            let e = CaptureError::new(
                CaptureErrorKind::Runtime(RuntimeErrorKind::StateError),
                "Snapshot does not belong to the recovery point",
            );
            return Err(*e);
        }
        if self.config.validation_enabled && !point.hash_matches(computed_hash) {
            let e = CaptureError::new(
                CaptureErrorKind::Runtime(RuntimeErrorKind::StateError),
                "Snapshot integrity check failed",
            );
            return Err(*e);
        }
        self.restore_from_snapshot(loaded, entities)
    }

    /// Restores the entities from `loaded`, the snapshot that storage gave
    /// for the recovery point with the id `point_id`.
    ///
    /// The point must be known, and the snapshot must pass the checks of
    /// `restore_checked` with the hash that the digest capability gives for
    /// it. Where the restore is refused the entities stay as they are.
    pub fn restore_from_point(
        &self,
        point_id: &String,
        loaded: &StateSnapshot<S>,
        entities: &mut Vec<StateSync<S>>,
    ) -> (r: Result<(), CaptureError>)
        ensures
            r.is_err() ==> final(entities)@ == old(entities)@,
            r.is_ok() ==> restored(
                syncs_view(old(entities)@),
                syncs_view(final(entities)@),
                loaded@.states,
            ),
            !has_point(self@.recovery_points, point_id@) ==> (r matches Err(e) && e@
                == point_not_found()),
            r.is_ok() ==> loaded@.version == current_version(),
            has_point(self@.recovery_points, point_id@) && !self@.validation_enabled
                && loaded@.version == current_version() ==> (r.is_ok() <==> exists|i: int|
                is_first_point(self@.recovery_points, point_id@, i) && loaded@.snapshot_id
                    == (#[trigger] self@.recovery_points[i]).snapshot_id),
    {
        let point = match self.find_recovery_point(point_id) {
            Some(point) => point,
            None => {
                let e = CaptureError::new(
                    CaptureErrorKind::Runtime(RuntimeErrorKind::EntityNotFound),
                    "Recovery point not found",
                );
                return Err(*e);
            },
        };
        let computed = self.validator.generate_validation_hash(loaded);
        proof {
            let points = self@.recovery_points;
            let i = choose|i: int| is_first_point(points, point_id@, i) && point@ == points[i];
            assert forall|c: int| is_first_point(points, point_id@, c) implies c == i by {
                if c < i {
                    assert(points[c].id != point_id@);
                }
                if i < c {
                    assert(points[i].id != point_id@);
                }
            }
        }
        self.restore_checked(point, loaded, &computed, entities)
    }

    /// Drops the snapshots and recovery points that are older than the
    /// retention period at the time `now`, and of the snapshots that are left
    /// all but the newest, up to the bound on their number.
    pub fn cleanup_old_snapshots_at(&mut self, now: Timestamp)
        ensures
            final(self)@ == old(self)@.cleaned(now),
            final(self)@.snapshots.len() <= old(self)@.snapshots.len(),
            final(self)@.snapshots.len() <= old(self)@.max_snapshots,
    {
        let window = self.config.retention_period;
        let ghost before = self.snapshots@;
        retain_fresh(&mut self.snapshots, window, now);
        proof {
            let view = |s: StateSnapshot<S>| s@;
            lemma_retained_through(
                before,
                view,
                stamp_of::<StateSnapshot<S>>(),
                snapshot_stamp::<S>(),
                window,
                now,
            );
            assert(snapshots_view(before) =~= before.map_values(view));
            assert(snapshots_view(self.snapshots@) =~= self.snapshots@.map_values(view));
        }
        if self.snapshots.len() > self.config.max_snapshots {
            let ghost fresh = snapshots_view(self.snapshots@);
            let excess = self.snapshots.len() - self.config.max_snapshots;
            let tail = self.snapshots.split_off(excess);
            self.snapshots = tail;
            proof {
                assert(snapshots_view(self.snapshots@) =~= fresh.skip(
                    fresh.len() - self.config.max_snapshots,
                ));
            }
        }
        let ghost points = self.recovery_points@;
        retain_fresh(&mut self.recovery_points, window, now);
        proof {
            let view = |p: RecoveryPoint| p@;
            lemma_retained_through(
                points,
                view,
                stamp_of::<RecoveryPoint>(),
                point_stamp(),
                window,
                now,
            );
            assert(points_view(points) =~= points.map_values(view));
            assert(points_view(self.recovery_points@) =~= self.recovery_points@.map_values(view));
        }
    }

    /// Drops old snapshots and recovery points, by the clock's reading of the
    /// moment.
    pub fn cleanup_old_snapshots(&mut self)
        ensures
            exists|now: Timestamp| final(self)@ == #[trigger] old(self)@.cleaned(now),
            final(self)@.snapshots.len() <= old(self)@.snapshots.len(),
            final(self)@.snapshots.len() <= old(self)@.max_snapshots,
    {
        let now = Timestamp::now();
        self.cleanup_old_snapshots_at(now);
    }
}

} // verus!
