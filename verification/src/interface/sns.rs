//! Events delivered by Amazon SNS.
use std::sync::Arc;
use vstd::prelude::*;

use crate::application::event_service::processed;
use crate::application::EventService;
use crate::domain::Event;
use crate::error::HarnessError;
use crate::interface::EventInput;

verus! {

/// What the handler reads of an SNS record.
#[derive(Debug, Clone)]
pub struct SnsRecord {
    pub topic_arn: String,
    pub message: String,
}

/// The events to process for `records`, in order: one for each record, typed
/// by the topic's ARN, with the message as its data.
pub open spec fn sns_inputs(records: Seq<SnsRecord>) -> Seq<(Seq<char>, Seq<char>)> {
    records.map_values(|r: SnsRecord| (r.topic_arn@, r.message@))
}

/// A batch yields one input per record, in order: the i-th input is typed by
/// the i-th record's topic ARN and carries its message.
pub proof fn law_one_input_per_record(records: Seq<SnsRecord>)
    ensures
        sns_inputs(records).len() == records.len(),
        forall|i: int|
            0 <= i < records.len() ==> #[trigger] sns_inputs(records)[i] == (records[i].topic_arn@, records[i].message@),
{
}

/// Handles batches of SNS records.
pub struct SnsHandler<R> {
    event_service: Arc<EventService<R>>,
    property_path: String,
}

impl<R> SnsHandler<R> {
    pub closed spec fn spec_event_service(&self) -> Arc<EventService<R>> {
        self.event_service
    }

    pub closed spec fn spec_property_path(&self) -> Seq<char> {
        self.property_path@
    }

    pub fn new(event_service: Arc<EventService<R>>, property_path: String) -> (res: Self)
        ensures
            res.spec_event_service() == event_service,
            res.spec_property_path() == property_path@,
    {
        SnsHandler { event_service, property_path }
    }

    /// The service that processes the events.
    pub fn event_service(&self) -> (res: &Arc<EventService<R>>)
        ensures
            *res == self.spec_event_service(),
    {
        &self.event_service
    }

    /// The events to process for a batch of records (see `sns_inputs`).
    pub fn event_inputs(records: &Vec<SnsRecord>) -> (res: Vec<EventInput>)
        ensures
            res@.map_values(|x: EventInput| x@) == sns_inputs(records@),
    {
        let mut res: Vec<EventInput> = Vec::new();
        let n = records.len();
        let mut i: usize = 0;
        while i < n
            invariant
                n == records@.len(),
                i <= n,
                res@.len() == i,
                forall|j: int| 0 <= j < i ==> #[trigger] res@[j]@ == (records@[j].topic_arn@, records@[j].message@),
            decreases n - i,
        {
            let record = &records[i];
            res.push(EventInput { event_type: record.topic_arn.clone(), event_data: record.message.clone() });
            i = i + 1;
        }
        assert(res@.map_values(|x: EventInput| x@) =~= sns_inputs(records@));
        res
    }

    /// The event to store for one input, processed with the handler's property path.
    pub fn prepare(&self, input: &EventInput) -> (res: Result<Event, HarnessError>)
        ensures
            processed(res, input.event_type@, input.event_data@, self.spec_property_path()),
    {
        self.event_service.process_event(input.event_type.as_str(), input.event_data.as_str(), self.property_path.as_str())
    }
}

} // verus!
