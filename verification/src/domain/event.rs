//! The events the harness records.
use vstd::prelude::*;

verus! {

/// A point in time, as its distance from the Unix epoch: `nanos` nanoseconds
/// after it, or before it where `before_epoch` holds (a distance of zero is
/// the epoch itself either way).
#[derive(Debug, Clone, Copy, PartialEq, Eq, Structural)]
pub struct Timestamp {
    pub before_epoch: bool,
    pub nanos: u128,
}

impl Timestamp {
    /// Whether the instant lies strictly before the epoch.
    pub open spec fn is_before_epoch(self) -> bool {
        self.before_epoch && self.nanos > 0
    }

    /// Whole milliseconds since the epoch, as `Duration::as_millis` counts them.
    pub open spec fn millis(self) -> nat {
        (self.nanos / 1_000_000) as nat
    }

    /// The instant `millis` milliseconds after the epoch.
    pub open spec fn from_millis(millis: nat) -> Timestamp {
        Timestamp { before_epoch: false, nanos: (millis * 1_000_000) as u128 }
    }
}

/// Reads the system clock with `std::time::SystemTime::now` and measures the
/// instant from `std::time::UNIX_EPOCH`. Claims nothing: the clock decides.
#[verifier::external_body]
fn system_time_now() -> Timestamp {
    match std::time::SystemTime::now().duration_since(std::time::UNIX_EPOCH) {
        Ok(after) => Timestamp { before_epoch: false, nanos: after.as_nanos() },
        Err(before) => Timestamp { before_epoch: true, nanos: before.duration().as_nanos() },
    }
}

/// An event as received: when it arrived, its raw contents, the value found
/// at the configured property, and its type.
#[derive(Debug, Clone)]
pub struct Event {
    pub timestamp: Timestamp,
    pub contents: String,
    pub property_value: String,
    pub event_type: String,
}

/// The mathematical content of an `Event`.
pub struct EventView {
    pub timestamp: Timestamp,
    pub contents: Seq<char>,
    pub property_value: Seq<char>,
    pub event_type: Seq<char>,
}

impl View for Event {
    type V = EventView;

    open spec fn view(&self) -> EventView {
        EventView {
            timestamp: self.timestamp,
            contents: self.contents@,
            property_value: self.property_value@,
            event_type: self.event_type@,
        }
    }
}

impl Event {
    /// An event received now.
    pub fn new(event_type: String, contents: String, property_value: String) -> (res: Event)
        ensures
            res.event_type@ == event_type@,
            res.contents@ == contents@,
            res.property_value@ == property_value@,
    {
        Event { timestamp: system_time_now(), contents, property_value, event_type }
    }

    /// An event received at `timestamp`.
    pub fn from(timestamp: Timestamp, event_type: String, contents: String, property_value: String) -> (res: Event)
        ensures
            res@ == (EventView {
                timestamp,
                contents: contents@,
                property_value: property_value@,
                event_type: event_type@,
            }),
    {
        Event { timestamp, contents, property_value, event_type }
    }
}

} // verus!
