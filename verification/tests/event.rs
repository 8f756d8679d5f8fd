use capture_engine::interfaces::event::{
    handle_backpressure, matches_filter, matches_filters, route_event, Event, EventFilter,
    EventLane, EventMetadata, EventPriority, SystemEventType,
};

fn event(priority: EventPriority, source: &str, correlation: Option<&str>) -> Event {
    Event {
        metadata: EventMetadata {
            id: "e-1".to_string(),
            timestamp: 7,
            priority,
            correlation_id: correlation.map(|c| c.to_string()),
            source: source.to_string(),
        },
        payload: SystemEventType::StateEvent,
    }
}

#[test]
fn events_travel_on_the_lane_of_their_priority() {
    for pressured in [false, true] {
        assert_eq!(route_event(EventPriority::Critical, pressured), Some(EventLane::Critical));
        assert_eq!(route_event(EventPriority::High, pressured), Some(EventLane::High));
        assert_eq!(route_event(EventPriority::Normal, pressured), Some(EventLane::Normal));
        assert_eq!(route_event(EventPriority::Low, pressured), Some(EventLane::Low));
    }
    assert_eq!(route_event(EventPriority::Background, false), Some(EventLane::Low));
    assert_eq!(route_event(EventPriority::Background, true), None);
}

#[test]
fn under_pressure_all_but_urgent_events_wait() {
    let all = [
        EventPriority::Critical,
        EventPriority::High,
        EventPriority::Normal,
        EventPriority::Low,
        EventPriority::Background,
    ];
    for priority in all {
        assert!(!handle_backpressure(priority, false));
        let urgent = matches!(priority, EventPriority::Critical | EventPriority::High);
        assert_eq!(handle_backpressure(priority, true), !urgent);
    }
    assert_eq!(EventPriority::Normal.position(), 2);
}

#[test]
fn filters_match_by_kind_priority_source_and_correlation() {
    let e = event(EventPriority::Normal, "buffer", Some("c-9"));
    let kinds = EventFilter::ByType(vec![SystemEventType::ErrorEvent, SystemEventType::StateEvent]);
    assert!(matches_filter(&kinds, &e));
    assert!(!matches_filter(&EventFilter::ByType(vec![SystemEventType::ErrorEvent]), &e));
    assert!(!matches_filter(&EventFilter::ByType(Vec::new()), &e));
    for filter in [EventPriority::Critical, EventPriority::High, EventPriority::Normal] {
        assert!(matches_filter(&EventFilter::ByPriority(filter), &e));
        assert_eq!(e.metadata.priority >= filter, true);
    }
    assert!(!matches_filter(&EventFilter::ByPriority(EventPriority::Low), &e));
    assert!(matches_filter(&EventFilter::BySource("buffer".to_string()), &e));
    assert!(!matches_filter(&EventFilter::BySource("cloud".to_string()), &e));
    assert!(matches_filter(&EventFilter::ByCorrelation("c-9".to_string()), &e));
    assert!(!matches_filter(&EventFilter::ByCorrelation("c-1".to_string()), &e));
    let plain = event(EventPriority::Normal, "buffer", None);
    assert!(!matches_filter(&EventFilter::ByCorrelation("c-9".to_string()), &plain));

    let wanted = vec![kinds, EventFilter::BySource("buffer".to_string())];
    assert!(matches_filters(&wanted, &e));
    let unwanted = vec![
        EventFilter::BySource("buffer".to_string()),
        EventFilter::ByPriority(EventPriority::Background),
    ];
    assert!(!matches_filters(&unwanted, &e));
    assert!(matches_filters(&Vec::new(), &e));
}
