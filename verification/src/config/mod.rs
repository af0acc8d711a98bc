//! The harness configuration, decided from the values of its environment variables.
use vstd::prelude::*;

use crate::error::HarnessError;

verus! {

/// Where the harness runs.
#[derive(Debug, Clone, Copy, PartialEq, Eq, Structural)]
pub enum Environment {
    Local,
    Lambda,
    Container,
}

/// Where the harness receives events from.
#[derive(Debug, Clone, Copy, PartialEq, Eq, Structural)]
pub enum EventSource {
    Sns,
    Sqs,
    EventBridge,
    Http,
}

/// Why an environment variable has no value, as `std::env::VarError` tells it;
/// `NotUnicode` carries the debug rendering of the raw value.
#[derive(Debug, Clone)]
pub enum VarError {
    NotPresent,
    NotUnicode(String),
}

/// The message `std::env::VarError` displays.
pub open spec fn var_error_message(e: VarError) -> Seq<char> {
    match e {
        VarError::NotPresent => "environment variable not found"@,
        VarError::NotUnicode(raw) => "environment variable was not valid unicode: "@ + raw@,
    }
}

/// The message `std::env::VarError` displays for `e`.
pub fn var_error_text(e: &VarError) -> (res: String)
    ensures
        res@ == var_error_message(*e),
{
    match e {
        VarError::NotPresent => String::from_str("environment variable not found"),
        VarError::NotUnicode(raw) => String::from_str("environment variable was not valid unicode: ").concat(
            raw.as_str(),
        ),
    }
}

/// What `str::to_lowercase` gives for `s`.
pub uninterp spec fn lowercase(s: Seq<char>) -> Seq<char>;

/// Lower-cases `s` with `str::to_lowercase`. Claimed: the result is what
/// `lowercase` names for `s`.
#[verifier::external_body]
fn to_lowercase(s: &str) -> (res: String)
    ensures
        res@ == lowercase(s@),
{
    s.to_lowercase()
}

/// The event source a lower-cased `EVENT_SOURCE` value selects.
pub open spec fn source_named(name: Seq<char>) -> Option<EventSource> {
    if name == "sqs"@ {
        Some(EventSource::Sqs)
    } else if name == "eventbridge"@ {
        Some(EventSource::EventBridge)
    } else {
        None
    }
}

/// The message for an `EVENT_SOURCE` value that selects no source.
pub open spec fn invalid_source_message() -> Seq<char> {
    "Invalid EVENT_SOURCE value. Must be 'sqs' or 'eventbridge'"@
}

/// The message for a missing `TABLE_NAME`.
pub open spec fn missing_table_message(e: VarError) -> Seq<char> {
    "TABLE_NAME environment variable not set: "@ + var_error_message(e)
}

/// The message for a missing `EVENT_HARNESS_PROPERTY_JSON_POINTER_PATH`.
pub open spec fn missing_path_message(e: VarError) -> Seq<char> {
    "EVENT_HARNESS_PROPERTY_JSON_POINTER_PATH environment variable not set: "@ + var_error_message(e)
}

/// `EVENT_SOURCE` names a source by exactly two lower-cased values, `sqs` and
/// `eventbridge`; every other value is refused with the message naming those two,
/// and a missing required variable is reported with its name and the reason.
pub proof fn law_event_source_names(name: Seq<char>, e: VarError)
    ensures
        source_named(name) == Some(EventSource::Sqs) <==> name == "sqs"@,
        source_named(name) == Some(EventSource::EventBridge) <==> name == "eventbridge"@,
        source_named(name) is None <==> (name != "sqs"@ && name != "eventbridge"@),
        invalid_source_message() == "Invalid EVENT_SOURCE value. Must be 'sqs' or 'eventbridge'"@,
        missing_table_message(e) == "TABLE_NAME environment variable not set: "@ + var_error_message(e),
        missing_path_message(e) == "EVENT_HARNESS_PROPERTY_JSON_POINTER_PATH environment variable not set: "@
            + var_error_message(e),
        var_error_message(VarError::NotPresent) == "environment variable not found"@,
        e matches VarError::NotUnicode(raw) ==> var_error_message(e)
            == "environment variable was not valid unicode: "@ + raw@,
{
    reveal_strlit("sqs");
    reveal_strlit("eventbridge");
    assert("sqs"@.len() != "eventbridge"@.len());
}

/// The harness configuration.
#[derive(Debug)]
pub struct Config {
    pub table_name: String,
    pub property_path: String,
    pub environment: Environment,
    pub event_source: EventSource,
}

impl Config {
    /// The configuration from the values of `EVENT_HARNESS_LAMBDA`, `EVENT_SOURCE`,
    /// `TABLE_NAME` and `EVENT_HARNESS_PROPERTY_JSON_POINTER_PATH`: the harness runs as
    /// a Lambda when the first is set and in a container otherwise; the event source
    /// defaults to SQS; the table and the property path are required.
    pub fn from_vars(
        harness_lambda: Result<String, VarError>,
        event_source: Result<String, VarError>,
        table_name: Result<String, VarError>,
        property_path: Result<String, VarError>,
    ) -> (res: Result<Config, HarnessError>)
        ensures
            (event_source matches Ok(v) && source_named(lowercase(v@)) is None) ==> (res matches Err(
                HarnessError::Config(m),
            ) && m@ == invalid_source_message()),
            (!(event_source matches Ok(v) && source_named(lowercase(v@)) is None) && table_name is Err)
                ==> (res matches Err(HarnessError::Config(m)) && m@ == missing_table_message(table_name->Err_0)),
            (!(event_source matches Ok(v) && source_named(lowercase(v@)) is None) && table_name is Ok
                && property_path is Err) ==> (res matches Err(HarnessError::Config(m)) && m@
                == missing_path_message(property_path->Err_0)),
            res is Ok <==> (!(event_source matches Ok(v) && source_named(lowercase(v@)) is None)
                && table_name is Ok && property_path is Ok),
            res matches Ok(c) ==> {
                &&& c.environment == (if harness_lambda is Ok {
                    Environment::Lambda
                } else {
                    Environment::Container
                })
                &&& c.event_source == match event_source {
                    Ok(v) => source_named(lowercase(v@))->0,
                    Err(_) => EventSource::Sqs,
                }
                &&& c.table_name@ == table_name->Ok_0@
                &&& c.property_path@ == property_path->Ok_0@
            },
    {
        let environment = match harness_lambda {
            Ok(_) => Environment::Lambda,
            Err(_) => Environment::Container,
        };
        let source = match event_source {
            Ok(val) => {
                let lower = to_lowercase(val.as_str());
                if lower == String::from_str("sqs") {
                    EventSource::Sqs
                } else if lower == String::from_str("eventbridge") {
                    EventSource::EventBridge
                } else {
                    return Err(HarnessError::Config(String::from_str(
                        "Invalid EVENT_SOURCE value. Must be 'sqs' or 'eventbridge'",
                    )));
                }
            },
            Err(_) => EventSource::Sqs,
        };
        let table_name = match table_name {
            Ok(v) => v,
            Err(e) => {
                return Err(HarnessError::Config(String::from_str(
                    "TABLE_NAME environment variable not set: ",
                ).concat(var_error_text(&e).as_str())));
            },
        };
        let property_path = match property_path {
            Ok(v) => v,
            Err(e) => {
                return Err(HarnessError::Config(String::from_str(
                    "EVENT_HARNESS_PROPERTY_JSON_POINTER_PATH environment variable not set: ",
                ).concat(var_error_text(&e).as_str())));
            },
        };
        Ok(Config { table_name, property_path, environment, event_source: source })
    }
}

} // verus!
