use capture_engine::state_machine::{StateMachine, StateTransition};
use capture_engine::state_sync::{StateChangeEvent, StateSyncBuilder, StateSyncConfig, SyncMetrics};
use capture_engine::time::{Duration, Timestamp};
use std::collections::HashMap;

// Test state enum
#[derive(Clone, Copy, Debug)]
enum TestState {
    Initial,
    Processing,
}

fn create_test_transition() -> StateTransition<TestState> {
    StateTransition::new(
        TestState::Initial,
        TestState::Processing,
        Some("test transition".to_string()),
    )
}

#[test]
fn test_new_state_change_event_basic() {
    let entity_id = "test-entity".to_string();
    let transition = create_test_transition();
    let metadata = HashMap::new();

    let event = StateChangeEvent::new(entity_id.clone(), transition, metadata);

    assert_eq!(event.entity_id(), &entity_id);
    assert!(matches!(event.transition().from(), TestState::Initial));
    assert!(matches!(event.transition().to(), TestState::Processing));
    assert!(event.metadata().is_empty());

    let now = Timestamp::now();
    let diff = now
        .duration_since(event.timestamp())
        .expect("Time should not go backwards");
    assert!(diff < Duration::from_secs(1));
}

#[test]
fn test_state_change_event_with_metadata() {
    let mut metadata = HashMap::new();
    metadata.insert("key1".to_string(), "value1".to_string());
    metadata.insert("key2".to_string(), "value2".to_string());

    let event = StateChangeEvent::new(
        "test-entity".to_string(),
        create_test_transition(),
        metadata.clone(),
    );

    assert_eq!(event.metadata().get("key1"), Some(&"value1".to_string()));
    assert_eq!(event.metadata().get("key2"), Some(&"value2".to_string()));
    assert_eq!(event.metadata().len(), 2);
}

#[test]
fn test_empty_entity_id() {
    let event = StateChangeEvent::new("".to_string(), create_test_transition(), HashMap::new());

    assert_eq!(event.entity_id(), "");
}

#[test]
fn test_large_metadata() {
    let mut metadata = HashMap::new();
    for i in 0..1000 {
        metadata.insert(format!("key{}", i), format!("value{}", i));
    }

    let event = StateChangeEvent::new(
        "test-entity".to_string(),
        create_test_transition(),
        metadata.clone(),
    );

    assert_eq!(event.metadata().len(), 1000);
    // Verify a few random keys
    assert_eq!(event.metadata().get("key0"), Some(&"value0".to_string()));
    assert_eq!(
        event.metadata().get("key999"),
        Some(&"value999".to_string())
    );
}

#[test]
fn test_clone_behavior() {
    let mut metadata = HashMap::new();
    metadata.insert("key".to_string(), "value".to_string());

    let original = StateChangeEvent::new(
        "test-entity".to_string(),
        create_test_transition(),
        metadata,
    );

    let cloned = original.clone();

    assert_eq!(original.entity_id(), cloned.entity_id());
    assert_eq!(original.metadata(), cloned.metadata());
    assert_eq!(original.timestamp(), cloned.timestamp());
    // Check transition fields individually
    assert!(matches!(original.transition().from(), TestState::Initial));
    assert!(matches!(original.transition().to(), TestState::Processing));
}

#[test]
fn test_metadata_special_characters() {
    let mut metadata = HashMap::new();
    metadata.insert("!@#$%^&*()".to_string(), "ç‰¹æ®Šå­—ç¬¦".to_string());
    metadata.insert("emojiðŸŽ‰".to_string(), "valueðŸŒŸ".to_string());

    let event = StateChangeEvent::new(
        "test-entity".to_string(),
        create_test_transition(),
        metadata.clone(),
    );

    assert_eq!(
        event.metadata().get("!@#$%^&*()"),
        Some(&"ç‰¹æ®Šå­—ç¬¦".to_string())
    );
    assert_eq!(
        event.metadata().get("emojiðŸŽ‰"),
        Some(&"valueðŸŒŸ".to_string())
    );
}

#[test]
fn test_debug_format() {
    let mut metadata = HashMap::new();
    metadata.insert("key".to_string(), "value".to_string());

    let event = StateChangeEvent::new(
        "test-entity".to_string(),
        create_test_transition(),
        metadata,
    );

    let debug_string = format!("{:?}", event);
    assert!(debug_string.contains("test-entity"));
    assert!(debug_string.contains("key"));
    assert!(debug_string.contains("value"));
}


#[test]
fn test_with_empty_metadata() {
    let event = StateChangeEvent::new(
        "test-entity".to_string(),
        create_test_transition(),
        HashMap::new(),
    );

    assert!(event.metadata().is_empty());
}

#[test]
fn test_default_config() {
    let config = StateSyncConfig::default();
    assert_eq!(config.report_interval, Duration::from_secs(1));
    assert_eq!(config.retry_attempts, 3);
    assert_eq!(config.retry_delay, Duration::from_secs(1));
}

#[test]
fn state_sync_test_custom_config() {
    let config = StateSyncConfig {
        report_interval: Duration::from_secs(5),
        retry_attempts: 5,
        retry_delay: Duration::from_millis(500),
    };

    assert_eq!(config.report_interval, Duration::from_secs(5));
    assert_eq!(config.retry_attempts, 5);
    assert_eq!(config.retry_delay, Duration::from_millis(500));
}

#[test]
fn test_zero_duration_config() {
    let config = StateSyncConfig {
        report_interval: Duration::from_secs(0),
        retry_attempts: 0,
        retry_delay: Duration::from_secs(0),
    };

    assert_eq!(config.report_interval, Duration::from_secs(0));
    assert_eq!(config.retry_attempts, 0);
    assert_eq!(config.retry_delay, Duration::from_secs(0));
}

#[test]
fn test_max_values_config() {
    let config = StateSyncConfig {
        report_interval: Duration::from_secs(u64::MAX),
        retry_attempts: u32::MAX,
        retry_delay: Duration::from_secs(u64::MAX),
    };

    assert_eq!(config.report_interval, Duration::from_secs(u64::MAX));
    assert_eq!(config.retry_attempts, u32::MAX);
    assert_eq!(config.retry_delay, Duration::from_secs(u64::MAX));
}

#[test]
fn test_clone_implementation() {
    let original = StateSyncConfig {
        report_interval: Duration::from_secs(2),
        retry_attempts: 4,
        retry_delay: Duration::from_millis(750),
    };

    let cloned = original.clone();

    assert_eq!(original.report_interval, cloned.report_interval);
    assert_eq!(original.retry_attempts, cloned.retry_attempts);
    assert_eq!(original.retry_delay, cloned.retry_delay);
}

#[test]
fn test_debug_implementation() {
    let config = StateSyncConfig::default();
    let debug_string = format!("{:?}", config);

    assert!(debug_string.contains("StateSyncConfig"));
    assert!(debug_string.contains("report_interval"));
    assert!(debug_string.contains("retry_attempts"));
    assert!(debug_string.contains("retry_delay"));
}

#[test]
fn state_sync_test_new_metrics() {
    let metrics = SyncMetrics::new();
    assert_eq!(metrics.sync_attempts(), 0);
    assert_eq!(metrics.failed_syncs(), 0);
    assert_eq!(metrics.average_sync_time(), 0);
}

#[test]
fn test_single_sync_attempt() {
    let mut metrics = SyncMetrics::new();
    metrics.record_sync_attempt(100);

    assert_eq!(metrics.sync_attempts(), 1);
    assert_eq!(metrics.average_sync_time(), 100);
}

#[test]
fn state_sync_test_multiple_sync_attempts() {
    let mut metrics = SyncMetrics::new();

    metrics.record_sync_attempt(100);
    metrics.record_sync_attempt(200);
    metrics.record_sync_attempt(300);

    assert_eq!(metrics.sync_attempts(), 3);
    // Average should be 200 ((100 + 200 + 300) / 3)
    assert_eq!(metrics.average_sync_time(), 200);
}

#[test]
fn test_failed_syncs() {
    let mut metrics = SyncMetrics::new();

    metrics.record_failed_sync();
    metrics.record_failed_sync();

    assert_eq!(metrics.failed_syncs(), 2);
    // Failed syncs shouldn't affect sync attempts or average time
    assert_eq!(metrics.sync_attempts(), 0);
    assert_eq!(metrics.average_sync_time(), 0);
}

#[test]
fn test_mixed_success_failure() {
    let mut metrics = SyncMetrics::new();

    metrics.record_sync_attempt(100);
    metrics.record_failed_sync();
    metrics.record_sync_attempt(300);
    metrics.record_failed_sync();

    assert_eq!(metrics.sync_attempts(), 2);
    assert_eq!(metrics.failed_syncs(), 2);
    assert_eq!(metrics.average_sync_time(), 200); // (100 + 300) / 2
}



#[test]
fn test_zero_duration_sync() {
    let mut metrics = SyncMetrics::new();
    metrics.record_sync_attempt(0);

    assert_eq!(metrics.sync_attempts(), 1);
    assert_eq!(metrics.average_sync_time(), 0);
}

#[test]
fn test_max_duration_sync() {
    let mut metrics = SyncMetrics::new();
    metrics.record_sync_attempt(u64::MAX);

    assert_eq!(metrics.sync_attempts(), 1);
    assert_eq!(metrics.average_sync_time(), u64::MAX);
}

#[test]
fn test_average_time_overflow_protection() {
    let mut metrics = SyncMetrics::new();

    // Record several very large durations
    for _ in 0..5 {
        metrics.record_sync_attempt(u64::MAX / 2);
    }

    // Average should not overflow
    assert!(metrics.average_sync_time() <= u64::MAX);
}

#[test]
fn test_sync_attempts_overflow_protection() {
    let mut metrics = SyncMetrics::new();

    // Try to simulate counter overflow
    for _ in 0..100 {
        metrics.record_sync_attempt(1);
    }

    assert!(metrics.sync_attempts() <= u64::MAX);
}

#[test]
fn test_failed_syncs_overflow_protection() {
    let mut metrics = SyncMetrics::new();

    // Try to simulate counter overflow
    for _ in 0..100 {
        metrics.record_failed_sync();
    }

    assert!(metrics.failed_syncs() <= u64::MAX);
}


#[test]
fn test_default_creation() {
    let metrics = SyncMetrics::default();
    assert_eq!(metrics.sync_attempts(), 0);
    assert_eq!(metrics.failed_syncs(), 0);
    assert_eq!(metrics.average_sync_time(), 0);
}

#[test]
fn state_sync_test_metrics_independence() {
    let mut metrics1 = SyncMetrics::new();
    let mut metrics2 = SyncMetrics::new();

    metrics1.record_sync_attempt(100);
    metrics2.record_sync_attempt(200);

    assert_eq!(metrics1.average_sync_time(), 100);
    assert_eq!(metrics2.average_sync_time(), 200);
}

#[derive(Clone, Copy, Debug, Eq, Hash, PartialEq)]
enum SyncState {
    Initial,
    Final,
}

fn sync_machine() -> StateMachine<SyncState> {
    let mut state_machine =
        StateMachine::new(SyncState::Initial, 1).expect("Failed to create state machine");
    state_machine.add_transition(SyncState::Initial, SyncState::Final);
    state_machine
}

fn sync_config() -> StateSyncConfig {
    StateSyncConfig {
        report_interval: Duration::from_secs(1),
        retry_attempts: 3,
        retry_delay: Duration::from_secs(1),
    }
}

fn assert_configs_equal(left: &StateSyncConfig, right: &StateSyncConfig) {
    assert_eq!(left.report_interval, right.report_interval);
    assert_eq!(left.retry_attempts, right.retry_attempts);
    assert_eq!(left.retry_delay, right.retry_delay);
}

#[test]
fn test_builder_clone() {
    let original = StateSyncBuilder::<SyncState>::new()
        .with_engine_id("test-engine".to_string())
        .with_state_machine(sync_machine())
        .with_config(sync_config());

    let cloned = original.clone();

    assert_eq!(cloned.engine_id, original.engine_id);
    assert!(cloned.state_machine.is_some());

    assert_configs_equal(&cloned.config.unwrap(), &original.config.unwrap());
}

#[test]
fn average_sync_time_falls_with_a_sample_below_it() {
    let mut metrics = SyncMetrics::new();
    metrics.record_sync_attempt(300);
    metrics.record_sync_attempt(100);
    assert_eq!(metrics.sync_attempts(), 2);
    assert_eq!(metrics.average_sync_time(), 200);
}
