use capture_engine::capture_error::{
    CaptureError, CaptureErrorKind, ResourceErrorKind, RuntimeErrorKind,
};
use capture_engine::state_machine::{fold_average, StateMachine, StateMetrics};
use capture_engine::state_sync::{StateSyncBuilder, StateSyncConfig, SyncAction};
use capture_engine::time::{Duration, Timestamp};
use std::collections::HashMap;

#[derive(Debug, Clone, Copy, Eq, PartialEq, Hash)]
enum Phase {
    Initial,
    Processing,
    Complete,
    Error,
}

fn phases(max_history: usize) -> StateMachine<Phase> {
    let mut sm = StateMachine::new(Phase::Initial, max_history).unwrap();
    sm.add_transition(Phase::Initial, Phase::Processing);
    sm.add_transition(Phase::Processing, Phase::Complete);
    sm.add_transition(Phase::Processing, Phase::Error);
    sm
}

#[test]
fn history_of_two_evicts_the_first_transition() {
    let mut sm = phases(2);
    sm.add_transition(Phase::Complete, Phase::Processing);
    sm.transition_to(Phase::Processing, None).unwrap();
    sm.transition_to(Phase::Complete, None).unwrap();
    sm.transition_to(Phase::Processing, None).unwrap();

    assert_eq!(*sm.current_state(), Phase::Processing);
    let history = sm.history();
    assert_eq!(history.len(), 2);
    assert_eq!(*history[0].from(), Phase::Processing);
    assert_eq!(*history[0].to(), Phase::Complete);
    assert_eq!(*history[1].from(), Phase::Complete);
    assert_eq!(*history[1].to(), Phase::Processing);
    assert_eq!(sm.metrics().transitions_count(), 3);
    assert_eq!(sm.metrics().failed_transitions(), 0);
}

#[test]
fn transition_succeeds_exactly_along_registered_edges() {
    let all = [Phase::Initial, Phase::Processing, Phase::Complete, Phase::Error];
    for from in all {
        for to in all {
            let mut sm = StateMachine::new(from, 4).unwrap();
            sm.add_transition(Phase::Initial, Phase::Processing);
            sm.add_transition(Phase::Processing, Phase::Complete);
            sm.add_transition(Phase::Processing, Phase::Error);
            let edge = matches!(
                (from, to),
                (Phase::Initial, Phase::Processing)
                    | (Phase::Processing, Phase::Complete)
                    | (Phase::Processing, Phase::Error)
            );
            assert_eq!(sm.can_transition_to(&to), edge);
            let result = sm.transition_to(to, None);
            assert_eq!(result.is_ok(), edge);
            if edge {
                assert_eq!(*sm.current_state(), to);
                assert_eq!(sm.history().len(), 1);
                assert_eq!(sm.metrics().transitions_count(), 1);
                assert_eq!(sm.metrics().failed_transitions(), 0);
            } else {
                assert_eq!(*sm.current_state(), from);
                assert_eq!(sm.history().len(), 0);
                assert_eq!(sm.metrics().transitions_count(), 0);
                assert_eq!(sm.metrics().failed_transitions(), 1);
            }
        }
    }
}

#[test]
fn rejected_transition_reports_invalid_state() {
    let mut sm = phases(3);
    let error = sm.transition_to(Phase::Complete, None).unwrap_err();
    assert!(matches!(
        error.kind(),
        CaptureErrorKind::Resource(ResourceErrorKind::InvalidState)
    ));
    assert_eq!(error.message(), "Invalid state transition");
}

#[test]
fn self_loop_can_be_repeated_within_the_history_bound() {
    let mut sm = StateMachine::new(Phase::Initial, 3).unwrap();
    sm.add_transition(Phase::Initial, Phase::Initial);
    for round in 1..=10u64 {
        assert!(sm.transition_to(Phase::Initial, None).is_ok());
        assert_eq!(*sm.current_state(), Phase::Initial);
        assert!(sm.history().len() <= 3);
        assert_eq!(sm.metrics().transitions_count(), round);
    }
    assert_eq!(sm.history().len(), 3);
}

#[test]
fn restored_state_is_recorded_like_a_transition() {
    let mut sm = phases(2);
    sm.restore_state(Phase::Error, Some("back".to_string()));
    assert_eq!(*sm.current_state(), Phase::Error);
    assert_eq!(sm.history().len(), 1);
    assert_eq!(*sm.history()[0].from(), Phase::Initial);
    assert_eq!(sm.metrics().transitions_count(), 1);
}

#[test]
fn running_average_follows_the_incremental_formula() {
    assert_eq!(fold_average(0, 100, 0), 100);
    assert_eq!(fold_average(100, 200, 1), 150);
    assert_eq!(fold_average(150, 300, 2), 200);
    assert_eq!(fold_average(200, 100, 3), 175);
    assert_eq!(fold_average(300, 100, 1), 200);
    assert_eq!(fold_average(10, 0, 3), 8);
    assert_eq!(fold_average(u64::MAX, 0, 1), u64::MAX - u64::MAX / 2);
    assert_eq!(fold_average(7, u64::MAX, u64::MAX), 7);
    assert_eq!(fold_average(u64::MAX, 7, u64::MAX), u64::MAX);
    assert_eq!(fold_average(0, u64::MAX, 1), u64::MAX / 2);

    let mut metrics = StateMetrics::new();
    metrics.record_transition(10);
    metrics.record_transition(20);
    metrics.record_transition(60);
    assert_eq!(metrics.average_transition_time(), 30);
    metrics.record_transition(10);
    assert_eq!(metrics.average_transition_time(), 25);
}

fn reporter_error(n: u32) -> CaptureError {
    *CaptureError::new(
        CaptureErrorKind::Runtime(RuntimeErrorKind::OperationFailed),
        &format!("reporter failure {}", n),
    )
}

#[test]
fn failing_reporter_is_tried_three_times_and_counts_one_failed_sync() {
    let mut machine = StateMachine::new(Phase::Initial, 4).unwrap();
    machine.add_transition(Phase::Initial, Phase::Processing);
    let delay = Duration::from_millis(25);
    let config = StateSyncConfig::new(Duration::from_secs(1))
        .with_retry_attempts(3)
        .with_retry_delay(delay);
    let mut sync = StateSyncBuilder::new()
        .with_engine_id("engine-1".to_string())
        .with_state_machine(machine)
        .with_config(config)
        .build()
        .unwrap();

    let mut pending = sync.begin_update(Phase::Processing, HashMap::new()).unwrap();
    assert_eq!(sync.current_state().unwrap(), Phase::Processing);
    assert_eq!(pending.event().entity_id(), "engine-1");
    assert_eq!(*pending.event().transition().from(), Phase::Initial);
    assert_eq!(*pending.event().transition().to(), Phase::Processing);

    let mut reports = 0u32;
    let mut waits = Vec::new();
    let mut action = sync.start_reporting(&pending);
    let result = loop {
        match action {
            SyncAction::Report => {
                reports += 1;
                action =
                    sync.report_outcome(&mut pending, Err(reporter_error(reports)), Timestamp::now());
            }
            SyncAction::RetryAfter(wait) => {
                waits.push(wait);
                action = SyncAction::Report;
            }
            SyncAction::Finish(result) => break result,
        }
    };

    assert_eq!(reports, 3);
    assert_eq!(waits, vec![delay, delay]);
    assert_eq!(sync.metrics().failed_syncs(), 1);
    assert_eq!(sync.metrics().sync_attempts(), 0);
    assert_eq!(result.unwrap_err().message(), "reporter failure 3");
    assert_eq!(sync.current_state().unwrap(), Phase::Processing);
    assert_eq!(sync.state_machine().history().len(), 1);
}

#[test]
fn successful_report_ends_the_update_and_is_measured() {
    let mut machine = StateMachine::new(Phase::Initial, 4).unwrap();
    machine.add_transition(Phase::Initial, Phase::Processing);
    let mut sync = StateSyncBuilder::new()
        .with_engine_id("engine-1".to_string())
        .with_state_machine(machine)
        .with_config(StateSyncConfig::default())
        .build()
        .unwrap();
    let mut pending = sync.begin_update(Phase::Processing, HashMap::new()).unwrap();
    assert!(matches!(sync.start_reporting(&pending), SyncAction::Report));
    let first = sync.report_outcome(&mut pending, Err(reporter_error(1)), Timestamp::now());
    assert!(matches!(first, SyncAction::RetryAfter(_)));
    assert_eq!(pending.attempts(), 1);
    let later = Timestamp::from_nanos(pending.started().as_nanos() + 500);
    let second = sync.report_outcome(&mut pending, Ok(()), later);
    assert!(matches!(second, SyncAction::Finish(Ok(()))));
    assert_eq!(sync.metrics().sync_attempts(), 1);
    assert_eq!(sync.metrics().average_sync_time(), 500);
    assert_eq!(sync.metrics().failed_syncs(), 0);
}

#[test]
fn illegal_update_fails_with_the_machine_error_and_reports_nothing() {
    let machine = StateMachine::new(Phase::Initial, 4).unwrap();
    let mut sync = StateSyncBuilder::new()
        .with_engine_id("engine-1".to_string())
        .with_state_machine(machine)
        .with_config(StateSyncConfig::default())
        .build()
        .unwrap();
    let error = sync.begin_update(Phase::Complete, HashMap::new()).unwrap_err();
    assert!(matches!(
        error.kind(),
        CaptureErrorKind::Resource(ResourceErrorKind::InvalidState)
    ));
    assert_eq!(sync.current_state().unwrap(), Phase::Initial);
    assert_eq!(sync.state_machine().metrics().failed_transitions(), 1);
}

#[test]
fn no_attempts_configured_fails_without_a_report() {
    let mut machine = StateMachine::new(Phase::Initial, 4).unwrap();
    machine.add_transition(Phase::Initial, Phase::Processing);
    let config = StateSyncConfig::default().with_retry_attempts(0);
    let mut sync = StateSyncBuilder::new()
        .with_engine_id("engine-1".to_string())
        .with_state_machine(machine)
        .with_config(config)
        .build()
        .unwrap();
    let pending = sync.begin_update(Phase::Processing, HashMap::new()).unwrap();
    match sync.start_reporting(&pending) {
        SyncAction::Finish(Err(error)) => {
            assert_eq!(error.message(), "Failed to report state change after all retries");
            assert!(matches!(
                error.kind(),
                CaptureErrorKind::Runtime(RuntimeErrorKind::OperationFailed)
            ));
        }
        _ => panic!("expected the update to end with an error"),
    }
    assert_eq!(sync.metrics().failed_syncs(), 1);
}

#[test]
fn sync_config_validation_names_the_first_fault() {
    let zero_attempts = StateSyncConfig::default().with_retry_attempts(0);
    assert_eq!(
        zero_attempts.validate().unwrap_err().message(),
        "retry_attempts must be greater than 0"
    );
    let zero_delay = StateSyncConfig::default().with_retry_delay(Duration::from_secs(0));
    assert_eq!(
        zero_delay.validate().unwrap_err().message(),
        "retry_delay must be greater than 0"
    );
    assert!(StateSyncConfig::default().validate().is_ok());
}

#[test]
fn sync_builder_names_the_missing_field() {
    let machine = StateMachine::new(Phase::Initial, 4).unwrap();
    let no_id = StateSyncBuilder::new()
        .with_state_machine(machine.clone())
        .with_config(StateSyncConfig::default())
        .build();
    assert_eq!(no_id.unwrap_err().message(), "engine_id is required");
    let no_machine = StateSyncBuilder::<Phase>::new()
        .with_engine_id("e".to_string())
        .with_config(StateSyncConfig::default())
        .build();
    assert_eq!(no_machine.unwrap_err().message(), "state_machine is required");
    let no_config = StateSyncBuilder::new()
        .with_engine_id("e".to_string())
        .with_state_machine(machine)
        .build();
    let error = no_config.unwrap_err();
    assert_eq!(error.message(), "config is required");
    assert!(matches!(error.kind(), CaptureErrorKind::Configuration(_)));
}

#[test]
fn only_the_first_of_many_attempts_succeeds() {
    let mut sm = phases(100);
    let mut successes = 0;
    for attempt in 0..10 {
        let result = sm.transition_to(Phase::Processing, Some(format!("Attempt {}", attempt)));
        if result.is_ok() {
            successes += 1;
        } else {
            let error = result.unwrap_err();
            assert!(matches!(
                error.kind(),
                CaptureErrorKind::Resource(ResourceErrorKind::InvalidState)
            ));
        }
    }
    assert_eq!(successes, 1);
    assert_eq!(sm.metrics().failed_transitions(), 9);
    assert_eq!(sm.history().len(), 1);
}
