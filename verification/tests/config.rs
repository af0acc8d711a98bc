use event_harness::config::{var_error_text, Config, Environment, EventSource, VarError};
use event_harness::error::HarnessError;

fn set(s: &str) -> Result<String, VarError> {
    Ok(s.to_string())
}

fn unset() -> Result<String, VarError> {
    Err(VarError::NotPresent)
}

#[test]
fn defaults_to_container_and_sqs() {
    let c = Config::from_vars(unset(), unset(), set("events"), set("/id")).unwrap();
    assert_eq!(c.environment, Environment::Container);
    assert_eq!(c.event_source, EventSource::Sqs);
    assert_eq!(c.table_name, "events");
    assert_eq!(c.property_path, "/id");
}

#[test]
fn lambda_when_flag_set() {
    let c = Config::from_vars(set(""), set("eventbridge"), set("t"), set("/p")).unwrap();
    assert_eq!(c.environment, Environment::Lambda);
    assert_eq!(c.event_source, EventSource::EventBridge);
}

#[test]
fn event_source_ignores_case() {
    let c = Config::from_vars(unset(), set("EventBridge"), set("t"), set("/p")).unwrap();
    assert_eq!(c.event_source, EventSource::EventBridge);
    let c = Config::from_vars(unset(), set("SQS"), set("t"), set("/p")).unwrap();
    assert_eq!(c.event_source, EventSource::Sqs);
}

#[test]
fn unknown_event_source_is_refused() {
    for v in ["sns", "http", "HTTP", "kafka", ""] {
        match Config::from_vars(unset(), set(v), set("t"), set("/p")) {
            Err(HarnessError::Config(m)) => {
                assert_eq!(m, "Invalid EVENT_SOURCE value. Must be 'sqs' or 'eventbridge'")
            }
            _ => panic!("expected a config error for {:?}", v),
        }
    }
}

#[test]
fn event_source_is_checked_before_the_table() {
    match Config::from_vars(unset(), set("kafka"), unset(), unset()) {
        Err(HarnessError::Config(m)) => assert!(m.starts_with("Invalid EVENT_SOURCE")),
        _ => panic!("expected a config error"),
    }
}

#[test]
fn missing_table_name() {
    match Config::from_vars(unset(), unset(), unset(), set("/p")) {
        Err(HarnessError::Config(m)) => {
            assert_eq!(m, "TABLE_NAME environment variable not set: environment variable not found")
        }
        _ => panic!("expected a config error"),
    }
}

#[test]
fn missing_property_path() {
    match Config::from_vars(unset(), unset(), set("t"), Err(VarError::NotUnicode("\"a\\xFF\"".to_string()))) {
        Err(HarnessError::Config(m)) => assert_eq!(
            m,
            "EVENT_HARNESS_PROPERTY_JSON_POINTER_PATH environment variable not set: environment variable was not valid unicode: \"a\\xFF\""
        ),
        _ => panic!("expected a config error"),
    }
}

#[test]
fn var_error_text_reads_like_std() {
    assert_eq!(var_error_text(&VarError::NotPresent), "environment variable not found");
    assert_eq!(
        var_error_text(&VarError::NotUnicode("\"x\"".to_string())),
        "environment variable was not valid unicode: \"x\""
    );
}
