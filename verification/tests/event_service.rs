use event_harness::application::EventService;
use event_harness::error::HarnessError;

fn service() -> EventService<()> {
    EventService::new(())
}

#[test]
fn sqs_example_from_readme() {
    let data = r#"{"test": {"nested": "value"}}"#;
    let event = service().process_event("arn:aws:sqs:eu-west-1:1:queue", data, "/test/nested").unwrap();
    assert_eq!(event.property_value, "value");
    assert_eq!(event.contents, data);
    assert_eq!(event.event_type, "arn:aws:sqs:eu-west-1:1:queue");
}

#[test]
fn eventbridge_example_from_readme() {
    let data = r#"{"detail": {"test": {"nested": "value"}}}"#;
    let event = service().process_event("OrderPlaced", data, "/detail/test/nested").unwrap();
    assert_eq!(event.property_value, "value");
}

#[test]
fn event_is_stamped_now() {
    let before = std::time::SystemTime::now().duration_since(std::time::UNIX_EPOCH).unwrap().as_nanos();
    let event = service().process_event("t", r#"{"id": "42"}"#, "/id").unwrap();
    let after = std::time::SystemTime::now().duration_since(std::time::UNIX_EPOCH).unwrap().as_nanos();
    assert!(!event.timestamp.before_epoch);
    assert!(before <= event.timestamp.nanos && event.timestamp.nanos <= after);
}

#[test]
fn invalid_json_is_a_parse_error() {
    let res = service().process_event("t", "{not json", "/id");
    assert!(matches!(res, Err(HarnessError::JsonParse(_))));
}

#[test]
fn missing_property_is_reported_with_its_path() {
    match service().process_event("t", r#"{"id": "42"}"#, "/other") {
        Err(HarnessError::InvalidEvent(m)) => assert_eq!(m, "Property path /other not found"),
        other => panic!("unexpected {:?}", other.is_ok()),
    }
}

#[test]
fn property_that_is_no_string_is_missing() {
    match service().process_event("t", r#"{"id": 42}"#, "/id") {
        Err(HarnessError::InvalidEvent(m)) => assert_eq!(m, "Property path /id not found"),
        other => panic!("unexpected {:?}", other.is_ok()),
    }
}

#[test]
fn extract_property_from_lookup() {
    let got = EventService::<()>::extract_property(Some("value".to_string()), "/test/nested");
    assert!(matches!(got, Ok(ref s) if s == "value"));
    let missing = EventService::<()>::extract_property(None, "/test");
    assert!(matches!(missing, Err(HarnessError::InvalidEvent(ref m)) if m == "Property path /test not found"));
}

#[test]
fn repository_is_kept() {
    let s = EventService::new(7u32);
    assert_eq!(*s.repository(), 7);
}
