//! Events delivered by Amazon SQS.
use std::sync::Arc;
use vstd::prelude::*;

use crate::application::event_service::processed;
use crate::application::EventService;
use crate::domain::Event;
use crate::error::HarnessError;
use crate::interface::{string_or_empty, text_or_empty, EventInput};

verus! {

/// What the handler reads of an SQS record.
#[derive(Debug, Clone)]
pub struct SqsRecord {
    pub event_source_arn: Option<String>,
    pub body: Option<String>,
}

/// The events to process for `records`, in order: one for each record with a
/// body, typed by the queue's ARN (empty where the record names none).
pub open spec fn sqs_inputs(records: Seq<SqsRecord>) -> Seq<(Seq<char>, Seq<char>)>
    decreases records.len(),
{
    if records.len() == 0 {
        Seq::empty()
    } else {
        let rest = sqs_inputs(records.drop_last());
        match records.last().body {
            Some(body) => rest.push((text_or_empty(records.last().event_source_arn), body@)),
            None => rest,
        }
    }
}

/// The records of a batch that carry a body, in order.
pub open spec fn bodied(records: Seq<SqsRecord>) -> Seq<SqsRecord> {
    records.filter(|r: SqsRecord| r.body is Some)
}

/// A batch yields exactly one input per record that has a body, in the order of
/// the records, whatever the bodies hold: the k-th input is the k-th such
/// record's queue ARN (empty where it names none) and body.
pub proof fn law_one_input_per_body(records: Seq<SqsRecord>)
    ensures
        sqs_inputs(records).len() == bodied(records).len(),
        forall|k: int|
            0 <= k < bodied(records).len() ==> sqs_inputs(records)[k] == (match #[trigger] bodied(
                records,
            )[k].event_source_arn {
                Some(arn) => arn@,
                None => Seq::<char>::empty(),
            }, bodied(records)[k].body->0@),
    decreases records.len(),
{
    reveal(Seq::filter);
    if records.len() > 0 {
        law_one_input_per_body(records.drop_last());
        let r = records.last();
        assert(bodied(records) == if r.body is Some {
            bodied(records.drop_last()).push(r)
        } else {
            bodied(records.drop_last())
        });
    }
}

/// Handles batches of SQS records.
pub struct SqsHandler<R> {
    event_service: Arc<EventService<R>>,
    property_path: String,
}

impl<R> SqsHandler<R> {
    pub closed spec fn spec_event_service(&self) -> Arc<EventService<R>> {
        self.event_service
    }

    pub closed spec fn spec_property_path(&self) -> Seq<char> {
        self.property_path@
    }

    pub fn new(event_service: Arc<EventService<R>>, property_path: String) -> (res: Self)
        ensures
            res.spec_event_service() == event_service,
            res.spec_property_path() == property_path@,
    {
        SqsHandler { event_service, property_path }
    }

    /// The service that processes the events.
    pub fn event_service(&self) -> (res: &Arc<EventService<R>>)
        ensures
            *res == self.spec_event_service(),
    {
        &self.event_service
    }

    /// The events to process for a batch of records (see `sqs_inputs`).
    pub fn event_inputs(records: &Vec<SqsRecord>) -> (res: Vec<EventInput>)
        ensures
            res@.map_values(|x: EventInput| x@) == sqs_inputs(records@),
    {
        let mut res: Vec<EventInput> = Vec::new();
        let n = records.len();
        let mut i: usize = 0;
        assert(records@.take(0) =~= Seq::<SqsRecord>::empty());
        while i < n
            invariant
                n == records@.len(),
                i <= n,
                res@.map_values(|x: EventInput| x@) == sqs_inputs(records@.take(i as int)),
            decreases n - i,
        {
            let record = &records[i];
            let ghost before = res@;
            assert(records@.take(i + 1).drop_last() =~= records@.take(i as int));
            assert(records@.take(i + 1).last() == records@[i as int]);
            match &record.body {
                Some(body) => {
                    let input = EventInput {
                        event_type: string_or_empty(&record.event_source_arn),
                        event_data: body.clone(),
                    };
                    res.push(input);
                    assert(res@.map_values(|x: EventInput| x@) =~= before.map_values(|x: EventInput| x@).push(
                        (text_or_empty(record.event_source_arn), body@),
                    ));
                },
                None => {},
            }
            i = i + 1;
        }
        assert(records@.take(n as int) =~= records@);
        res
    }

    /// The event to store for one input, processed with the handler's property path.
    pub fn prepare(&self, input: &EventInput) -> (res: Result<Event, HarnessError>)
        ensures
            processed(res, input.event_type@, input.event_data@, self.spec_property_path()),
    {
        self.event_service.process_event(input.event_type.as_str(), input.event_data.as_str(), self.property_path.as_str())
    }
}

} // verus!
