use capture_engine::capture_error::{
    CaptureError, CaptureErrorKind, ConfigErrorKind, RuntimeErrorKind,
};
use capture_engine::state_machine::StateMachine;
use capture_engine::state_recovery::{
    RecoveryPoint, StateRecoveryConfig, StateRecoveryManager, StateSnapshot, StateValidator,
};
use capture_engine::state_sync::{StateSync, StateSyncBuilder, StateSyncConfig};
use capture_engine::time::{Duration, Timestamp};
use std::collections::HashMap;

#[derive(Debug, Clone, Copy, Eq, PartialEq, Hash)]
enum Mode {
    Idle,
    Busy,
    Done,
}

struct Digest;

impl StateValidator<Mode> for Digest {
    fn validate_snapshot(&self, _snapshot: &StateSnapshot<Mode>) -> Result<bool, CaptureError> {
        Ok(true)
    }

    fn validate_recovery_point(&self, _point: &RecoveryPoint) -> Result<bool, CaptureError> {
        Ok(true)
    }

    fn generate_validation_hash(&self, snapshot: &StateSnapshot<Mode>) -> String {
        let mut text = String::new();
        for (id, state) in snapshot.states() {
            text.push_str(&format!("{}={:?};", id, state));
        }
        text
    }
}

fn entity(id: &str) -> StateSync<Mode> {
    let mut machine = StateMachine::new(Mode::Idle, 8).unwrap();
    machine.add_transition(Mode::Idle, Mode::Busy);
    machine.add_transition(Mode::Busy, Mode::Done);
    StateSyncBuilder::new()
        .with_engine_id(id.to_string())
        .with_state_machine(machine)
        .with_config(StateSyncConfig::default())
        .build()
        .unwrap()
}

fn manager(config: StateRecoveryConfig) -> StateRecoveryManager<Mode> {
    StateRecoveryManager::new(config, Box::new(Digest))
}

fn states(entities: &[StateSync<Mode>]) -> Vec<Mode> {
    entities.iter().map(|e| e.current_state().unwrap()).collect()
}

#[test]
fn snapshot_holds_every_entity_with_its_state() {
    let mut entities = vec![entity("buffer"), entity("interface")];
    entities[1].begin_update(Mode::Busy, HashMap::new()).unwrap();
    let mut recovery = manager(StateRecoveryConfig::default());
    let mut metadata = HashMap::new();
    metadata.insert("why".to_string(), "test".to_string());
    let snapshot = recovery.generate_snapshot(&entities, metadata);
    assert_eq!(snapshot.snapshot_id(), "snapshot-0");
    assert_eq!(snapshot.version(), "1.0");
    assert_eq!(snapshot.states().len(), 2);
    assert_eq!(snapshot.state_of(&"buffer".to_string()), Some(Mode::Idle));
    assert_eq!(snapshot.state_of(&"interface".to_string()), Some(Mode::Busy));
    assert_eq!(snapshot.state_of(&"session".to_string()), None);
    assert_eq!(snapshot.metadata().get("why"), Some(&"test".to_string()));
    let next = recovery.generate_snapshot(&entities, HashMap::new());
    assert_eq!(next.snapshot_id(), "snapshot-1");
}

#[test]
fn restoring_a_snapshot_of_the_moment_changes_no_state() {
    let mut entities = vec![entity("a"), entity("b"), entity("c")];
    entities[0].begin_update(Mode::Busy, HashMap::new()).unwrap();
    entities[2].begin_update(Mode::Busy, HashMap::new()).unwrap();
    entities[2].begin_update(Mode::Done, HashMap::new()).unwrap();
    let before = states(&entities);
    let mut recovery = manager(StateRecoveryConfig::default());
    let snapshot = recovery.generate_snapshot(&entities, HashMap::new());
    assert!(recovery.restore_from_snapshot(&snapshot, &mut entities).is_ok());
    assert_eq!(states(&entities), before);
}

#[test]
fn restoring_brings_back_the_states_of_snapshot_time() {
    let mut entities = vec![entity("a"), entity("b")];
    entities[0].begin_update(Mode::Busy, HashMap::new()).unwrap();
    let mut recovery = manager(StateRecoveryConfig::default());
    let snapshot = recovery.generate_snapshot(&entities, HashMap::new());
    entities[0].begin_update(Mode::Done, HashMap::new()).unwrap();
    entities[1].begin_update(Mode::Busy, HashMap::new()).unwrap();
    entities.push(entity("late"));
    entities[2].begin_update(Mode::Busy, HashMap::new()).unwrap();

    assert!(recovery.restore_from_snapshot(&snapshot, &mut entities).is_ok());
    assert_eq!(states(&entities), vec![Mode::Busy, Mode::Idle, Mode::Busy]);
    let history = entities[0].state_machine().history();
    let last = history.back().unwrap();
    assert_eq!(*last.from(), Mode::Done);
    assert_eq!(*last.to(), Mode::Busy);
    assert_eq!(last.reason().unwrap(), "State restored");
}

#[test]
fn snapshot_of_another_version_is_refused() {
    let mut entities = vec![entity("a")];
    entities[0].begin_update(Mode::Busy, HashMap::new()).unwrap();
    let recovery = manager(StateRecoveryConfig::default());
    let snapshot = StateSnapshot::new(
        "snapshot-9".to_string(),
        Timestamp::from_nanos(5),
        vec![("a".to_string(), Mode::Idle)],
        HashMap::new(),
        "0.9".to_string(),
    );
    let error = recovery.restore_from_snapshot(&snapshot, &mut entities).unwrap_err();
    assert!(matches!(
        error.kind(),
        CaptureErrorKind::Configuration(ConfigErrorKind::ValidationFailed)
    ));
    assert_eq!(error.message(), "Unsupported snapshot version");
    assert_eq!(states(&entities), vec![Mode::Busy]);
}

#[test]
fn recovery_point_restores_only_an_intact_snapshot() {
    let mut entities = vec![entity("a")];
    let mut recovery = manager(StateRecoveryConfig::default());
    let snapshot = recovery.generate_snapshot(&entities, HashMap::new());
    let point = recovery.create_recovery_point(&snapshot, HashMap::new());
    assert_eq!(point.id(), "recovery-1");
    assert_eq!(point.snapshot_id(), "snapshot-0");
    assert_eq!(point.validation_hash(), "a=Idle;");
    assert_eq!(recovery.recovery_points().len(), 1);
    entities[0].begin_update(Mode::Busy, HashMap::new()).unwrap();

    let unknown = recovery.restore_from_point(&"recovery-7".to_string(), &snapshot, &mut entities);
    let error = unknown.unwrap_err();
    assert!(matches!(error.kind(), CaptureErrorKind::Runtime(RuntimeErrorKind::EntityNotFound)));
    assert_eq!(error.message(), "Recovery point not found");

    let tampered = StateSnapshot::new(
        "snapshot-0".to_string(),
        snapshot.timestamp(),
        vec![("a".to_string(), Mode::Done)],
        HashMap::new(),
        "1.0".to_string(),
    );
    let refused = recovery.restore_from_point(&"recovery-1".to_string(), &tampered, &mut entities);
    let error = refused.unwrap_err();
    assert!(matches!(error.kind(), CaptureErrorKind::Runtime(RuntimeErrorKind::StateError)));
    assert_eq!(error.message(), "Snapshot integrity check failed");
    assert_eq!(states(&entities), vec![Mode::Busy]);

    let other = StateSnapshot::new(
        "snapshot-5".to_string(),
        snapshot.timestamp(),
        vec![("a".to_string(), Mode::Idle)],
        HashMap::new(),
        "1.0".to_string(),
    );
    let wrong = recovery.restore_from_point(&"recovery-1".to_string(), &other, &mut entities);
    assert_eq!(wrong.unwrap_err().message(), "Snapshot does not belong to the recovery point");
    assert_eq!(states(&entities), vec![Mode::Busy]);

    let loaded = snapshot.duplicate();
    assert!(recovery
        .restore_from_point(&"recovery-1".to_string(), &loaded, &mut entities)
        .is_ok());
    assert_eq!(states(&entities), vec![Mode::Idle]);
}

#[test]
fn hash_is_not_checked_where_validation_is_off() {
    let mut entities = vec![entity("a")];
    let mut config = StateRecoveryConfig::default();
    config.validation_enabled = false;
    let mut recovery = manager(config);
    let snapshot = recovery.generate_snapshot(&entities, HashMap::new());
    let point = recovery.recovery_point_for(&snapshot, "expected".to_string(), HashMap::new());
    assert!(!point.hash_matches(&"computed".to_string()));
    assert!(point.hash_matches(&"expected".to_string()));
    entities[0].begin_update(Mode::Busy, HashMap::new()).unwrap();
    let result = recovery.restore_checked(&point, &snapshot, &"computed".to_string(), &mut entities);
    assert!(result.is_ok());
    assert_eq!(states(&entities), vec![Mode::Idle]);
}

#[test]
fn remembered_snapshots_keep_to_their_bound() {
    let entities = vec![entity("a")];
    let mut config = StateRecoveryConfig::default();
    config.max_snapshots = 2;
    let mut recovery = manager(config);
    for _ in 0..3 {
        let snapshot = recovery.generate_snapshot(&entities, HashMap::new());
        recovery.remember_snapshot(snapshot);
    }
    let ids: Vec<&str> = recovery.snapshots().iter().map(|s| s.snapshot_id().as_str()).collect();
    assert_eq!(ids, vec!["snapshot-1", "snapshot-2"]);
}

#[test]
fn cleanup_drops_what_is_older_than_the_retention_period() {
    let mut config = StateRecoveryConfig::default();
    config.retention_period = Duration::from_secs(100);
    config.max_snapshots = 2;
    let mut recovery = manager(config);
    let second = 1_000_000_000u128;
    for (i, at) in [10u128, 50, 120, 130, 140].iter().enumerate() {
        recovery.remember_snapshot(StateSnapshot::new(
            format!("s{}", i),
            Timestamp::from_nanos(at * second),
            vec![("a".to_string(), Mode::Idle)],
            HashMap::new(),
            "1.0".to_string(),
        ));
    }
    assert_eq!(recovery.snapshots().len(), 2);

    let mut wide = StateRecoveryConfig::default();
    wide.retention_period = Duration::from_secs(100);
    wide.max_snapshots = 3;
    let mut recovery = manager(wide);
    for (i, at) in [10u128, 120, 130, 140].iter().enumerate() {
        recovery.remember_snapshot(StateSnapshot::new(
            format!("s{}", i),
            Timestamp::from_nanos(at * second),
            vec![("a".to_string(), Mode::Idle)],
            HashMap::new(),
            "1.0".to_string(),
        ));
    }
    recovery.cleanup_old_snapshots_at(Timestamp::from_nanos(225 * second));
    let ids: Vec<&str> = recovery.snapshots().iter().map(|s| s.snapshot_id().as_str()).collect();
    assert_eq!(ids, vec!["s2", "s3"]);
    recovery.cleanup_old_snapshots_at(Timestamp::from_nanos(240 * second));
    let ids: Vec<&str> = recovery.snapshots().iter().map(|s| s.snapshot_id().as_str()).collect();
    assert_eq!(ids, vec!["s3"]);
    recovery.cleanup_old_snapshots();
    assert!(recovery.snapshots().is_empty());
}

#[test]
fn default_recovery_config() {
    let config = StateRecoveryConfig::default();
    assert_eq!(config.snapshot_interval, Duration::from_secs(60));
    assert_eq!(config.max_snapshots, 10);
    assert_eq!(config.snapshot_storage_path, "snapshots");
    assert!(config.validation_enabled);
    assert!(!config.compression_enabled);
    assert_eq!(config.retention_period, Duration::from_secs(86400));
}

#[test]
fn snapshots_that_are_no_longer_kept_are_named_for_deletion() {
    let entities = vec![entity("a")];
    let mut config = StateRecoveryConfig::default();
    config.max_snapshots = 2;
    let mut recovery = manager(config);
    for _ in 0..3 {
        let snapshot = recovery.generate_snapshot(&entities, HashMap::new());
        recovery.remember_snapshot(snapshot);
    }
    assert!(!recovery.keeps_snapshot(&"snapshot-0".to_string()));
    assert!(recovery.keeps_snapshot(&"snapshot-2".to_string()));
    let stored: Vec<String> =
        ["snapshot-2", "snapshot-0", "other", "snapshot-1", "other"].iter().map(|s| s.to_string()).collect();
    assert_eq!(recovery.orphaned(&stored), vec!["snapshot-0", "other", "other"]);
    assert!(recovery.orphaned(&Vec::new()).is_empty());
}

#[test]
fn recovery_point_names_its_snapshot() {
    let entities = vec![entity("a")];
    let mut recovery = manager(StateRecoveryConfig::default());
    let snapshot = recovery.generate_snapshot(&entities, HashMap::new());
    let point = recovery.create_recovery_point(&snapshot, HashMap::new());
    assert_eq!(recovery.snapshot_of_point(point.id()).ok().unwrap(), "snapshot-0");
    let error = recovery.snapshot_of_point(&"nowhere".to_string()).unwrap_err();
    assert!(matches!(error.kind(), CaptureErrorKind::Runtime(RuntimeErrorKind::EntityNotFound)));
    assert_eq!(recovery.config().snapshot_storage_path, "snapshots");
    assert_eq!(recovery.config().snapshot_interval, Duration::from_secs(60));
}
