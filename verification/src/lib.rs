//! An event harness for testing producers in event-driven architectures: it
//! receives events from SQS, SNS, EventBridge or HTTP, picks a property out of
//! each by a JSON Pointer, and stores the events in DynamoDB.
pub mod application;
pub mod config;
pub mod decimal;
pub mod domain;
pub mod error;
pub mod infrastructure;
pub mod interface;
pub mod json;
pub mod text;
