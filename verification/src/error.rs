//! The errors of the event harness.
use vstd::prelude::*;

verus! {

/// `aws_sdk_dynamodb::Error`, carried opaquely in `HarnessError::DynamoDb`.
#[verifier::external_type_specification]
#[verifier::external_body]
pub struct ExDynamoDbError(aws_sdk_dynamodb::Error);

/// What can go wrong while handling an event.
#[derive(Debug)]
pub enum HarnessError {
    /// DynamoDB refused a request.
    DynamoDb(aws_sdk_dynamodb::Error),
    /// The event data is not JSON.
    JsonParse(serde_json::Error),
    /// The event data lacks what the harness needs.
    InvalidEvent(String),
    /// The configuration is incomplete or wrong.
    Config(String),
    /// Anything else that failed while running.
    Runtime(String),
}

} // verus!
