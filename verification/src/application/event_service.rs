//! Turning raw event data into the events to store.
use vstd::prelude::*;

use crate::domain::Event;
use crate::error::HarnessError;
use crate::json::{json_lookup, lookup_json_string, opt_text};

verus! {

/// The message for a property path that leads to no string.
pub open spec fn missing_property_message(path: Seq<char>) -> Seq<char> {
    "Property path "@ + path + " not found"@
}

/// What processing `event_data` of type `event_type` with the property at
/// `property_path` yields: an error where the data is no JSON, the missing-property
/// error where no string stands at the path, and otherwise the event with that
/// string as its property value and the data, verbatim, as its contents.
pub open spec fn processed(
    res: Result<Event, HarnessError>,
    event_type: Seq<char>,
    event_data: Seq<char>,
    property_path: Seq<char>,
) -> bool {
    &&& (json_lookup(event_data, property_path) is None <==> (res matches Err(HarnessError::JsonParse(_))))
    &&& match json_lookup(event_data, property_path) {
        Some(Some(v)) => (res matches Ok(e) && e.event_type@ == event_type && e.contents@ == event_data
            && e.property_value@ == v),
        Some(None) => (res matches Err(HarnessError::InvalidEvent(m)) && m@ == missing_property_message(
            property_path,
        )),
        None => true,
    }
}

/// What processing yields, told by its inputs: a parse error exactly where the
/// data is no JSON; on success, an event whose contents are the whole data,
/// verbatim, whose type is the type given, and whose property value is the string
/// the lookup of the path finds; otherwise the missing-property error, whose message
/// names the path.
pub proof fn law_processing_keeps_the_data(
    res: Result<Event, HarnessError>,
    event_type: Seq<char>,
    event_data: Seq<char>,
    property_path: Seq<char>,
)
    requires
        processed(res, event_type, event_data, property_path),
    ensures
        (res matches Err(HarnessError::JsonParse(_))) <==> json_lookup(event_data, property_path) is None,
        res matches Ok(e) ==> {
            &&& e.contents@ == event_data
            &&& e.contents@.len() == event_data.len()
            &&& e.event_type@ == event_type
            &&& json_lookup(event_data, property_path) == Some(Some(e.property_value@))
        },
        res is Ok <==> (json_lookup(event_data, property_path) matches Some(Some(_))),
        json_lookup(event_data, property_path) == Some(None::<Seq<char>>) ==> (res matches Err(
            HarnessError::InvalidEvent(m),
        ) && m@ == "Property path "@ + property_path + " not found"@),
{
}

/// Processes incoming events; `repository` is where the caller stores them.
pub struct EventService<R> {
    repository: R,
}

impl<R> EventService<R> {
    pub closed spec fn spec_repository(&self) -> R {
        self.repository
    }

    pub fn new(repository: R) -> (res: Self)
        ensures
            res.spec_repository() == repository,
    {
        EventService { repository }
    }

    /// The store this service was made with.
    pub fn repository(&self) -> (res: &R)
        ensures
            *res == self.spec_repository(),
    {
        &self.repository
    }

    /// The property value from what the lookup of `property_path` found, or
    /// the error that no string stands there.
    pub fn extract_property(found: Option<String>, property_path: &str) -> (res: Result<String, HarnessError>)
        ensures
            match opt_text(found) {
                Some(v) => res matches Ok(s) && s@ == v,
                None => res matches Err(HarnessError::InvalidEvent(m)) && m@ == missing_property_message(property_path@),
            },
    {
        match found {
            Some(s) => Ok(s),
            None => Err(HarnessError::InvalidEvent(
                String::from_str("Property path ").concat(property_path).concat(" not found"),
            )),
        }
    }

    /// The event to store for `event_data` of type `event_type`: the data must be
    /// JSON and hold a string at `property_path`, which becomes the event's
    /// property value; the event is stamped with the time of the call.
    pub fn process_event(&self, event_type: &str, event_data: &str, property_path: &str) -> (res: Result<Event, HarnessError>)
        ensures
            processed(res, event_type@, event_data@, property_path@),
    {
        let found = match lookup_json_string(event_data, property_path) {
            Ok(f) => f,
            Err(e) => {
                return Err(HarnessError::JsonParse(e));
            },
        };
        let property_value = match Self::extract_property(found, property_path) {
            Ok(v) => v,
            Err(e) => {
                return Err(e);
            },
        };
        Ok(Event::new(String::from_str(event_type), String::from_str(event_data), property_value))
    }
}

} // verus!
