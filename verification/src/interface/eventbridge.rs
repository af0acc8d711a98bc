//! Events delivered by Amazon EventBridge.
use std::sync::Arc;
use vstd::prelude::*;

use crate::application::event_service::processed;
use crate::application::EventService;
use crate::domain::Event;
use crate::error::HarnessError;
use crate::interface::{string_or_empty, text_or_empty, EventInput};

verus! {

/// Handles EventBridge events; the configured property path applies to their `detail`.
pub struct EventBridgeHandler<R> {
    event_service: Arc<EventService<R>>,
    property_path: String,
}

impl<R> EventBridgeHandler<R> {
    pub closed spec fn spec_event_service(&self) -> Arc<EventService<R>> {
        self.event_service
    }

    pub closed spec fn spec_property_path(&self) -> Seq<char> {
        self.property_path@
    }

    pub fn new(event_service: Arc<EventService<R>>, property_path: String) -> (res: Self)
        ensures
            res.spec_event_service() == event_service,
            res.spec_property_path() == property_path@,
    {
        EventBridgeHandler { event_service, property_path }
    }

    /// The service that processes the events.
    pub fn event_service(&self) -> (res: &Arc<EventService<R>>)
        ensures
            *res == self.spec_event_service(),
    {
        &self.event_service
    }

    /// The event to process for an EventBridge event whose `detail` serialises to
    /// `detail`: typed by its `detail-type` (empty where it has none).
    pub fn event_input(detail_type: &Option<String>, detail: String) -> (res: EventInput)
        ensures
            res@ == (text_or_empty(*detail_type), detail@),
    {
        EventInput { event_type: string_or_empty(detail_type), event_data: detail }
    }

    /// The event to store for one input, processed with the handler's property path.
    pub fn prepare(&self, input: &EventInput) -> (res: Result<Event, HarnessError>)
        ensures
            processed(res, input.event_type@, input.event_data@, self.spec_property_path()),
    {
        self.event_service.process_event(input.event_type.as_str(), input.event_data.as_str(), self.property_path.as_str())
    }
}

} // verus!
