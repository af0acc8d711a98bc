//! Reading stored events over HTTP.
use std::sync::Arc;
use vstd::prelude::*;

use crate::application::EventService;
use crate::interface::{string_or_empty, text_or_empty};

verus! {

/// An HTTP response: status code, headers in order, and body.
#[derive(Debug, Clone)]
pub struct HttpResponse {
    pub status: u16,
    pub headers: Vec<(String, String)>,
    pub body: String,
}

/// The headers every response carries: a JSON body, open to any origin.
pub open spec fn response_headers() -> Seq<(Seq<char>, Seq<char>)> {
    seq![
        ("content-type"@, "application/json"@),
        ("Access-Control-Allow-Origin"@, "*"@),
        ("Access-Control-Allow-Headers"@, "Content-Type"@),
        ("Access-Control-Allow-Methods"@, "POST,GET,PUT,DELETE"@),
    ]
}

/// Every response carries four headers, in this order: the JSON content type,
/// and CORS permission for any origin, the `Content-Type` header, and the
/// `POST`, `GET`, `PUT` and `DELETE` methods.
pub proof fn law_response_headers()
    ensures
        response_headers().len() == 4,
        response_headers()[0] == ("content-type"@, "application/json"@),
        response_headers()[1] == ("Access-Control-Allow-Origin"@, "*"@),
        response_headers()[2] == ("Access-Control-Allow-Headers"@, "Content-Type"@),
        response_headers()[3] == ("Access-Control-Allow-Methods"@, "POST,GET,PUT,DELETE"@),
{
}

/// Answers `GET` requests for the events stored under an identifier.
pub struct HttpHandler<R> {
    event_service: Arc<EventService<R>>,
}

impl<R> HttpHandler<R> {
    pub closed spec fn spec_event_service(&self) -> Arc<EventService<R>> {
        self.event_service
    }

    pub fn new(event_service: Arc<EventService<R>>) -> (res: Self)
        ensures
            res.spec_event_service() == event_service,
    {
        HttpHandler { event_service }
    }

    /// The service that looks the events up.
    pub fn event_service(&self) -> (res: &Arc<EventService<R>>)
        ensures
            *res == self.spec_event_service(),
    {
        &self.event_service
    }

    /// The identifier asked for: the `identifier` path parameter, or the empty
    /// string where the request has none.
    pub fn identifier(path_parameter: &Option<String>) -> (res: String)
        ensures
            res@ == text_or_empty(*path_parameter),
    {
        string_or_empty(path_parameter)
    }

    /// The response for a lookup whose events serialise to `events_json`: status
    /// 200 with the JSON and the CORS headers, and an empty body where the events
    /// could not be serialised.
    pub fn response(events_json: &Option<String>) -> (res: HttpResponse)
        ensures
            res.status == 200,
            res.headers@.map_values(|h: (String, String)| (h.0@, h.1@)) == response_headers(),
            res.body@ == text_or_empty(*events_json),
    {
        let mut headers: Vec<(String, String)> = Vec::new();
        headers.push((String::from_str("content-type"), String::from_str("application/json")));
        headers.push((String::from_str("Access-Control-Allow-Origin"), String::from_str("*")));
        headers.push((String::from_str("Access-Control-Allow-Headers"), String::from_str("Content-Type")));
        headers.push((String::from_str("Access-Control-Allow-Methods"), String::from_str("POST,GET,PUT,DELETE")));
        assert(headers@.map_values(|h: (String, String)| (h.0@, h.1@)) =~= response_headers());
        HttpResponse { status: 200, headers, body: string_or_empty(events_json) }
    }
}

} // verus!
