use event_harness::application::EventService;
use event_harness::error::HarnessError;

const DOCUMENT: &str = r#"{
    "test": {"nested": "value"},
    "a/b": "slash",
    "m~n": "tilde",
    "list": ["zero", {"k": "one"}],
    "n": 5
}"#;

fn property(path: &str) -> Option<String> {
    match EventService::new(()).process_event("t", DOCUMENT, path) {
        Ok(e) => Some(e.property_value),
        Err(HarnessError::InvalidEvent(_)) => None,
        Err(_) => panic!("unexpected error for {:?}", path),
    }
}

#[test]
fn pointer_lookups_follow_serde_json() {
    let value: serde_json::Value = serde_json::from_str(DOCUMENT).unwrap();
    for p in ["", "/test/nested", "/a~1b", "/m~0n", "/list/0", "/list/1/k", "/list/01", "/n", "/missing", "test/nested"] {
        let expected = value.pointer(p).and_then(|v| v.as_str()).map(|s| s.to_string());
        assert_eq!(property(p), expected, "pointer {:?}", p);
    }
}

#[test]
fn escaped_keys_are_found() {
    assert_eq!(property("/a~1b"), Some("slash".to_string()));
    assert_eq!(property("/m~0n"), Some("tilde".to_string()));
    assert_eq!(property("/list/1/k"), Some("one".to_string()));
}

#[test]
fn non_strings_and_absent_members_are_missing() {
    assert_eq!(property("/n"), None);
    assert_eq!(property("/test"), None);
    assert_eq!(property("/absent"), None);
}

#[test]
fn empty_pointer_is_the_whole_document() {
    let e = EventService::new(()).process_event("t", "\"whole\"", "").unwrap();
    assert_eq!(e.property_value, "whole");
}
