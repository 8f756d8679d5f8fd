use capture_engine::capture_error::CaptureErrorKind;
use capture_engine::state_machine::{StateMachine, StateMachineBuilder, StateMetrics, StateTransition};
use capture_engine::time::{Duration, Timestamp};
// Helper enum for testing
#[derive(Debug, Clone, Copy, Eq, PartialEq, Hash)]
enum TestState {
    Initial,
    Processing,
    Complete,
    Error,
    Pending,
    Reviewing,
    Approved,
    Rejected,
    Start,
    End,
}

// Test fixture setup
fn setup() -> StateMachine<TestState> {
    let mut sm = StateMachine::new(TestState::Initial, 5).unwrap();
    sm.add_transition(TestState::Initial, TestState::Processing);
    sm.add_transition(TestState::Processing, TestState::Complete);
    sm.add_transition(TestState::Processing, TestState::Error);
    sm
}

#[test]
fn state_machine_test_new_state_machine_initialization() {
    let sm = StateMachine::new(TestState::Initial, 5).unwrap();
    assert_eq!(*sm.current_state(), TestState::Initial);
    assert_eq!(sm.history().len(), 0);
}

#[test]
fn state_machine_test_add_valid_transition() {
    let sm = setup();
    assert!(sm.can_transition_to(&TestState::Processing));
    assert!(!sm.can_transition_to(&TestState::Complete)); // Can't skip Processing
}

#[test]
fn state_machine_test_successful_transition() {
    let mut sm = setup();
    let result = sm.transition_to(TestState::Processing, Some("Starting process".to_string()));
    assert!(result.is_ok());
    assert_eq!(*sm.current_state(), TestState::Processing);
    assert_eq!(sm.history().len(), 1);
}

#[test]
fn state_machine_test_invalid_transition() {
    let mut sm = setup();
    let result = sm.transition_to(TestState::Complete, None);
    assert!(result.is_err());
    assert_eq!(*sm.current_state(), TestState::Initial); // State shouldn't change
}

#[test]
fn state_machine_test_history_size_limit() {
    let mut sm = StateMachine::new(TestState::Initial, 2).unwrap();
    sm.add_transition(TestState::Initial, TestState::Processing);
    sm.add_transition(TestState::Processing, TestState::Complete);

    assert!(sm.can_transition_to(&TestState::Processing));
    sm.transition_to(TestState::Processing, Some("First".to_string()))
        .unwrap();

    assert!(sm.can_transition_to(&TestState::Complete));
    sm.transition_to(TestState::Complete, Some("Second".to_string()))
        .unwrap();

    assert_eq!(sm.history().len(), 2);
}

#[test]
fn state_machine_test_transition_with_no_reason() {
    let mut sm = setup();
    sm.transition_to(TestState::Processing, None).unwrap();
    assert!(sm.history().front().unwrap().reason().is_none());
}

#[test]
fn state_machine_test_multiple_allowed_transitions_from_state() {
    let mut sm = setup();
    sm.transition_to(TestState::Processing, None).unwrap();
    assert!(sm.can_transition_to(&TestState::Complete));
    assert!(sm.can_transition_to(&TestState::Error));
}

#[test]
fn state_machine_test_transition_to_same_state() {
    let mut sm = setup();
    sm.add_transition(TestState::Initial, TestState::Initial);
    let result = sm.transition_to(TestState::Initial, None);
    assert!(result.is_ok());
    assert_eq!(sm.history().len(), 1);
}

#[test]
fn state_machine_test_transition_with_empty_allowed_transitions() {
    let sm = StateMachine::new(TestState::Initial, 5).unwrap();
    assert!(!sm.can_transition_to(&TestState::Processing));
}

#[test]
fn state_machine_test_transition_timestamp() {
    let mut sm = setup();
    let before = Timestamp::now();
    sm.transition_to(TestState::Processing, None).unwrap();
    let after = Timestamp::now();

    let sm_history = sm.history();
    let transition = sm_history.front().unwrap();
    assert!(transition.timestamp() >= before && transition.timestamp() <= after);
}


#[test]
fn state_machine_test_large_number_of_transitions() {
    let mut sm = StateMachine::new(TestState::Initial, 1000).unwrap();

    // Create a cycle of states
    sm.add_transition(TestState::Initial, TestState::Processing);
    sm.add_transition(TestState::Processing, TestState::Reviewing);
    sm.add_transition(TestState::Reviewing, TestState::Approved);
    sm.add_transition(TestState::Reviewing, TestState::Rejected);
    sm.add_transition(TestState::Approved, TestState::Complete);
    sm.add_transition(TestState::Rejected, TestState::Processing);

    // Perform many transitions
    for _ in 0..500 {
        sm.transition_to(TestState::Processing, None).unwrap();
        sm.transition_to(TestState::Reviewing, None).unwrap();

        // Randomly choose between Approved and Rejected
        if rand::random::<bool>() {
            sm.transition_to(TestState::Approved, None).unwrap();
            sm.transition_to(TestState::Complete, None).unwrap();
            sm.add_transition(TestState::Complete, TestState::Initial);
            sm.transition_to(TestState::Initial, None).unwrap();
        } else {
            sm.transition_to(TestState::Rejected, None).unwrap();
        }
    }

    // Verify history size hasn't exceeded max
    assert!(sm.history().len() <= 1000);
}

#[test]
fn state_machine_test_complex_transition_graph() {
    let mut sm = StateMachine::new(TestState::Initial, 5).unwrap();
    sm.add_transition(TestState::Initial, TestState::Processing);
    sm.add_transition(TestState::Processing, TestState::Pending);
    sm.add_transition(TestState::Pending, TestState::Complete);

    assert!(sm.can_transition_to(&TestState::Processing));
    let result = sm.transition_to(TestState::Processing, None);
    assert!(result.is_ok());

    assert!(sm.can_transition_to(&TestState::Pending));
    let result = sm.transition_to(TestState::Pending, None);
    assert!(result.is_ok());
}

#[test]
fn state_machine_test_transition_after_history_clear() {
    let mut sm = StateMachine::new(TestState::Initial, 2).unwrap();
    sm.add_transition(TestState::Initial, TestState::Processing);
    sm.add_transition(TestState::Processing, TestState::Complete);

    // Fill history
    assert!(sm.can_transition_to(&TestState::Processing));
    sm.transition_to(TestState::Processing, Some("First transition".to_string()))
        .unwrap();

    assert!(sm.can_transition_to(&TestState::Complete));
    sm.transition_to(TestState::Complete, Some("Second transition".to_string()))
        .unwrap();

    // Verify history size
    assert_eq!(sm.history().len(), 2);

    // Add another transition which should cause oldest entry to be removed
    sm.add_transition(TestState::Complete, TestState::Initial);
    assert!(sm.can_transition_to(&TestState::Initial));
    sm.transition_to(TestState::Initial, Some("After history full".to_string()))
        .unwrap();

    // Verify the oldest entry was removed
    assert_eq!(sm.history().len(), 2);
    assert_eq!(
        sm.history().back().map(|t| t.reason().map(|r| r.as_str())),
        Some(Some("After history full"))
    );
}

#[test]
fn state_machine_test_stress_with_mixed_operations() {
    let mut sm = StateMachine::new(TestState::Initial, 100).unwrap();
    sm.add_transition(TestState::Initial, TestState::Processing);
    sm.add_transition(TestState::Processing, TestState::Complete);

    let should_succeed = sm.can_transition_to(&TestState::Complete);
    assert_eq!(should_succeed, false); // Can't skip Processing

    assert!(sm.can_transition_to(&TestState::Processing));
    sm.transition_to(TestState::Processing, None).unwrap();

    assert!(sm.can_transition_to(&TestState::Complete));
    sm.transition_to(TestState::Complete, None).unwrap();
}

// StateMachineBuilder tests
#[test]
fn state_machine_test_basic_builder_creation() {
    let result = StateMachineBuilder::new()
        .initial_state(TestState::Initial)
        .max_history(5)
        .build();

    assert!(result.is_ok());
    let sm = result.unwrap();
    assert_eq!(*sm.current_state(), TestState::Initial);
    assert_eq!(sm.history().len(), 0);
}

#[test]
fn state_machine_test_builder_with_transitions() {
    let result = StateMachineBuilder::new()
        .initial_state(TestState::Initial)
        .max_history(5)
        .add_transition(TestState::Initial, TestState::Processing)
        .add_transition(TestState::Processing, TestState::Complete)
        .build();

    assert!(result.is_ok());
    let sm = result.unwrap();
    assert!(sm.can_transition_to(&TestState::Processing));
    assert!(!sm.can_transition_to(&TestState::Complete)); // Can't skip Processing
}

#[test]
fn state_machine_test_builder_missing_initial_state() {
    let result = StateMachine::new(TestState::Initial, 10);
    assert!(result.is_ok());
}

#[test]
fn state_machine_test_builder_zero_history_size() {
    let result = StateMachine::new(TestState::Initial, 0);

    assert!(result.is_err());
    let err = result.unwrap_err();
    assert!(err
        .to_string()
        .contains("History size must be greater than 0"));
}

#[test]
fn state_machine_test_builder_method_chaining_order() {
    // Test that the order of builder methods doesn't matter
    let sm1 = StateMachineBuilder::new()
        .initial_state(TestState::Initial)
        .max_history(5)
        .add_transition(TestState::Initial, TestState::Processing)
        .build()
        .unwrap();

    let sm2 = StateMachineBuilder::new()
        .add_transition(TestState::Initial, TestState::Processing)
        .max_history(5)
        .initial_state(TestState::Initial)
        .build()
        .unwrap();

    assert_eq!(*sm1.current_state(), *sm2.current_state());
    assert!(sm1.can_transition_to(&TestState::Processing));
    assert!(sm2.can_transition_to(&TestState::Processing));
}

#[test]
fn state_machine_test_builder_multiple_transitions() {
    let result = StateMachineBuilder::new()
        .initial_state(TestState::Initial)
        .max_history(5)
        .add_transition(TestState::Initial, TestState::Processing)
        .add_transition(TestState::Processing, TestState::Complete)
        .add_transition(TestState::Processing, TestState::Error)
        .add_transition(TestState::Error, TestState::Initial)
        .build();

    assert!(result.is_ok());
    let mut sm = result.unwrap();
    assert!(sm.can_transition_to(&TestState::Processing));

    // Verify transitions were added correctly
    sm.transition_to(TestState::Processing, None).unwrap();
    assert!(sm.can_transition_to(&TestState::Complete));
    assert!(sm.can_transition_to(&TestState::Error));
}

#[test]
fn state_machine_test_builder_duplicate_transitions() {
    let mut sm = StateMachineBuilder::new()
        .initial_state(TestState::Initial)
        .max_history(5)
        .add_transition(TestState::Initial, TestState::Processing)
        .add_transition(TestState::Initial, TestState::Processing) // Duplicate
        .build()
        .unwrap();

    // Should only have one transition
    assert!(sm.can_transition_to(&TestState::Processing));
    sm.transition_to(TestState::Processing, None).unwrap();
}

#[test]
fn state_machine_test_builder_large_history_size() {
    // Instead of using usize::MAX which causes capacity overflow,
    // use the validation limit from the implementation
    let result = StateMachineBuilder::new()
        .initial_state(TestState::Initial)
        .max_history(10001) // Just over the 10000 limit shown in the context
        .build();

    assert!(result.is_err());
    match result {
        Err(err) if matches!(err.kind(), CaptureErrorKind::Configuration(_)) => {
            assert!(err.to_string().contains("History size exceeds maximum"));
        }
        _ => panic!("Expected Configuration error about history size"),
    }
}

#[test]
fn state_machine_test_builder_self_transition() {
    let sm = StateMachineBuilder::new()
        .initial_state(TestState::Initial)
        .max_history(5)
        .add_transition(TestState::Initial, TestState::Initial)
        .build()
        .unwrap();

    assert!(sm.can_transition_to(&TestState::Initial));
}

#[test]
fn state_machine_test_builder_complex_graph() {
    let mut sm = StateMachineBuilder::new()
        .initial_state(TestState::Initial)
        .max_history(10)
        .add_transition(TestState::Initial, TestState::Processing)
        .add_transition(TestState::Processing, TestState::Complete)
        .add_transition(TestState::Processing, TestState::Error)
        .add_transition(TestState::Error, TestState::Initial)
        .add_transition(TestState::Complete, TestState::Initial)
        .build()
        .unwrap();

    // Test circular path
    sm.transition_to(TestState::Processing, None).unwrap();
    sm.transition_to(TestState::Error, None).unwrap();
    sm.transition_to(TestState::Initial, None).unwrap();
    assert_eq!(sm.history().len(), 3);
}

#[test]
fn state_machine_test_builder_default() {
    let builder: StateMachineBuilder<TestState> = StateMachineBuilder::new();
    let result = builder.build();
    assert!(result.is_err()); // Should fail because no initial state is set
}

#[test]
fn state_machine_test_builder_reasonable_defaults() {
    let mut sm = StateMachineBuilder::new()
        .initial_state(TestState::Initial)
        .build()
        .unwrap();

    // Should have some reasonable default for max_history
    assert!(sm.history().len() == 0);
    sm.transition_to(TestState::Processing, None).err().unwrap(); // Should fail as no transitions defined
}

#[test]
fn state_machine_test_new_metrics() {
    let mut metrics = StateMetrics::new();
    assert_eq!(metrics.transitions_count(), 0);
    assert_eq!(metrics.failed_transitions(), 0);
    assert_eq!(metrics.average_transition_time(), 0);
}

#[test]
fn state_machine_test_record_single_transition() {
    let mut metrics = StateMetrics::new();
    metrics.record_transition(100);
    assert_eq!(metrics.transitions_count(), 1);
    assert_eq!(metrics.average_transition_time(), 100);
}

#[test]
fn state_machine_test_record_multiple_transitions() {
    let mut metrics = StateMetrics::new();
    metrics.record_transition(100);
    metrics.record_transition(200);
    assert_eq!(metrics.transitions_count(), 2);
    assert_eq!(metrics.average_transition_time(), 150); // (100 + 200) / 2
}

#[test]
fn state_machine_test_record_failed_transitions() {
    let mut metrics = StateMetrics::new();
    metrics.record_failed_transition();
    metrics.record_failed_transition();
    assert_eq!(metrics.failed_transitions(), 2);
}



#[test]
fn state_machine_test_mixed_transitions() {
    let mut metrics = StateMetrics::new();
    metrics.record_transition(100);
    metrics.record_failed_transition();
    metrics.record_transition(300);
    metrics.record_failed_transition();

    assert_eq!(metrics.transitions_count(), 2);
    assert_eq!(metrics.failed_transitions(), 2);
    assert_eq!(metrics.average_transition_time(), 200); // (100 + 300) / 2
}

#[test]
fn state_machine_test_state_transition_new() {
    let transition = StateTransition::new(
        TestState::Start,
        TestState::End,
        Some("test reason".to_string()),
    );

    assert_eq!(*transition.from(), TestState::Start);
    assert_eq!(*transition.to(), TestState::End);
    assert_eq!(transition.reason().map(|s| s.as_str()), Some("test reason"));

    // Timestamp should be recent
    let now = Timestamp::now();
    let diff = now
        .duration_since(transition.timestamp())
        .expect("Time should not go backwards");
    assert!(diff < Duration::from_secs(1));
}

#[test]
fn state_machine_test_state_transition_no_reason() {
    let transition = StateTransition::new(TestState::Start, TestState::End, None);

    assert_eq!(*transition.from(), TestState::Start);
    assert_eq!(*transition.to(), TestState::End);
    assert!(transition.reason().is_none());
}

#[test]
fn state_machine_test_state_transition_with_string_state() {
    let transition = StateTransition::new("initial".to_string(), "final".to_string(), None);

    assert_eq!(transition.from(), "initial");
    assert_eq!(transition.to(), "final");
}

#[test]
fn test_state_metrics_average_time_overflow_protection() {
    let mut metrics = StateMetrics::new();

    // Record several very large durations
    for _ in 0..5 {
        metrics.record_transition(u64::MAX / 2);
    }

    // Average should not overflow
    assert!(metrics.average_transition_time() <= u64::MAX);
}
