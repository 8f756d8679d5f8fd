//! Events that pass between components: their metadata and priorities, the
//! lane an event is routed to, when a publisher waits for capacity, and
//! which events a subscriber wants.
//!
//! Sending and receiving are the caller's work; the decisions are made here.

use vstd::prelude::*;

verus! {

/// Priority levels for events, the most urgent first.
#[derive(Clone, Copy, Debug, PartialEq, Eq, PartialOrd, Ord, Structural)]
pub enum EventPriority {
    Critical,
    High,
    Normal,
    Low,
    Background,
}

impl EventPriority {
    /// The place of the priority in the order of priorities: 0 for the most
    /// urgent.
    pub open spec fn rank(self) -> nat {
        match self {
            EventPriority::Critical => 0,
            EventPriority::High => 1,
            EventPriority::Normal => 2,
            EventPriority::Low => 3,
            EventPriority::Background => 4,
        }
    }

    /// The place of the priority in the order of priorities.
    pub fn position(&self) -> (p: u8)
        ensures
            p == self.rank(),
    {
        match self {
            EventPriority::Critical => 0,
            EventPriority::High => 1,
            EventPriority::Normal => 2,
            EventPriority::Low => 3,
            EventPriority::Background => 4,
        }
    }
}

/// Represents types of system events.
#[derive(Clone, Copy, Debug, PartialEq, Eq, Structural)]
pub enum SystemEventType {
    BufferEvent,
    CaptureEvent,
    CloudEvent,
    ControlEvent,
    FilterEvent,
    InterfaceEvent,
    OutputEvent,
    ProtocolEvent,
    SecurityEvent,
    StateEvent,
    StorageEvent,
    TelemetryEvent,
    PressureEvent,
    ResourceEvent,
    LifecycleEvent,
    ErrorEvent,
    CustomEvent,
}

/// Metadata for events.
#[derive(Clone, Debug)]
pub struct EventMetadata {
    pub id: String,
    pub timestamp: u64,
    pub priority: EventPriority,
    pub correlation_id: Option<String>,
    pub source: String,
}

/// An event: its metadata and what kind of event it is.
#[derive(Clone, Debug)]
pub struct Event {
    pub metadata: EventMetadata,
    pub payload: SystemEventType,
}

/// The lanes on which events travel, one for each priority that is always
/// delivered.
#[derive(Clone, Copy, Debug, PartialEq, Eq, Structural)]
pub enum EventLane {
    Critical,
    High,
    Normal,
    Low,
}

/// The lane for an event of the priority: its own lane, but for background
/// events, which travel on the low lane while the system is not under
/// pressure and are dropped while it is.
pub open spec fn lane_of(priority: EventPriority, pressured: bool) -> Option<EventLane> {
    match priority {
        EventPriority::Critical => Some(EventLane::Critical),
        EventPriority::High => Some(EventLane::High),
        EventPriority::Normal => Some(EventLane::Normal),
        EventPriority::Low => Some(EventLane::Low),
        EventPriority::Background => if pressured {
            None
        } else {
            Some(EventLane::Low)
        },
    }
}

/// Routes an event of the priority: the lane to send it on, or `None` where
/// it is dropped.
pub fn route_event(priority: EventPriority, pressured: bool) -> (lane: Option<EventLane>)
    ensures
        lane == lane_of(priority, pressured),
{
    match priority {
        EventPriority::Critical => Some(EventLane::Critical),
        EventPriority::High => Some(EventLane::High),
        EventPriority::Normal => Some(EventLane::Normal),
        EventPriority::Low => Some(EventLane::Low),
        EventPriority::Background => if pressured {
            None
        } else {
            Some(EventLane::Low)
        },
    }
}

/// Whether the publisher of an event of the priority waits for capacity
/// before the event is routed: under pressure, all but critical and high
/// events wait.
pub fn handle_backpressure(priority: EventPriority, pressured: bool) -> (wait: bool)
    ensures
        wait == (pressured && priority.rank() >= 2),
{
    if pressured {
        match priority {
            EventPriority::Critical => false,
            EventPriority::High => false,
            _ => true,
        }
    } else {
        false
    }
}

/// What a subscriber wants of an event.
#[derive(Clone, Debug)]
pub enum EventFilter {
    /// The event is of one of the kinds.
    ByType(Vec<SystemEventType>),
    /// The event is of the priority or of a less urgent one.
    ByPriority(EventPriority),
    /// The event comes from the source.
    BySource(String),
    /// The event carries the correlation id.
    ByCorrelation(String),
}

/// Whether the event passes the filter.
pub open spec fn passes(filter: EventFilter, event: Event) -> bool {
    match filter {
        EventFilter::ByType(types) => types@.contains(event.payload),
        EventFilter::ByPriority(priority) => event.metadata.priority.rank() >= priority.rank(),
        EventFilter::BySource(source) => event.metadata.source@ == source@,
        EventFilter::ByCorrelation(id) => match event.metadata.correlation_id {
            Some(carried) => carried@ == id@,
            None => false,
        },
    }
}

/// Whether the event passes the filter.
pub fn matches_filter(filter: &EventFilter, event: &Event) -> (pass: bool)
    ensures
        pass == passes(*filter, *event),
{
    match filter {
        EventFilter::ByType(types) => {
            let mut i: usize = 0;
            while i < types.len()
                invariant
                    i <= types.len(),
                    *filter == EventFilter::ByType(*types),
                    forall|j: int| 0 <= j < i ==> types@[j] != event.payload,
                decreases types.len() - i,
            {
                if types[i] == event.payload {
                    assert(types@[i as int] == event.payload);
                    return true;
                }
                i = i + 1;
            }
            false
        },
        EventFilter::ByPriority(priority) => event.metadata.priority.position()
            >= priority.position(),
        EventFilter::BySource(source) => event.metadata.source == *source,
        EventFilter::ByCorrelation(id) => match &event.metadata.correlation_id {
            Some(carried) => *carried == *id,
            None => false,
        },
    }
}

/// Whether the event passes every one of the filters. An event passes no
/// filters at all.
pub fn matches_filters(filters: &Vec<EventFilter>, event: &Event) -> (pass: bool)
    ensures
        pass == forall|i: int| 0 <= i < filters@.len() ==> passes(#[trigger] filters@[i], *event),
{
    let mut i: usize = 0;
    while i < filters.len()
        invariant
            i <= filters.len(),
            forall|j: int| 0 <= j < i ==> passes(#[trigger] filters@[j], *event),
        decreases filters.len() - i,
    {
        if !matches_filter(&filters[i], event) {
            return false;
        }
        i = i + 1;
    }
    true
}

} // verus!
