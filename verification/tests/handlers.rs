use std::sync::Arc;

use event_harness::application::EventService;
use event_harness::error::HarnessError;
use event_harness::interface::container::{
    ChannelUnderTest, Channels, ContainerRunner, ReceivedMessage, SqsConfig, TestConfig,
};
use event_harness::interface::eventbridge::EventBridgeHandler;
use event_harness::interface::http::HttpHandler;
use event_harness::interface::sns::{SnsHandler, SnsRecord};
use event_harness::interface::sqs::{SqsHandler, SqsRecord};
use event_harness::interface::{next_step, BatchStep};

fn service() -> Arc<EventService<()>> {
    Arc::new(EventService::new(()))
}

#[test]
fn sqs_records_without_body_are_skipped() {
    let records = vec![
        SqsRecord { event_source_arn: Some("arn:q".into()), body: Some("{\"a\":\"1\"}".into()) },
        SqsRecord { event_source_arn: Some("arn:q".into()), body: None },
        SqsRecord { event_source_arn: None, body: Some("{\"a\":\"2\"}".into()) },
    ];
    let inputs = SqsHandler::<()>::event_inputs(&records);
    assert_eq!(inputs.len(), 2);
    assert_eq!(inputs[0].event_type, "arn:q");
    assert_eq!(inputs[0].event_data, "{\"a\":\"1\"}");
    assert_eq!(inputs[1].event_type, "");
    assert_eq!(inputs[1].event_data, "{\"a\":\"2\"}");
}

#[test]
fn sqs_handler_uses_its_property_path() {
    let handler = SqsHandler::new(service(), "/a".to_string());
    let inputs = SqsHandler::<()>::event_inputs(&vec![SqsRecord {
        event_source_arn: Some("arn:q".into()),
        body: Some("{\"a\":\"1\"}".into()),
    }]);
    let event = handler.prepare(&inputs[0]).unwrap();
    assert_eq!(event.property_value, "1");
    assert_eq!(event.event_type, "arn:q");
}

#[test]
fn sns_records_are_typed_by_topic() {
    let records = vec![
        SnsRecord { topic_arn: "arn:t1".into(), message: "{\"p\":\"x\"}".into() },
        SnsRecord { topic_arn: "arn:t2".into(), message: "{}".into() },
    ];
    let inputs = SnsHandler::<()>::event_inputs(&records);
    assert_eq!(inputs.len(), 2);
    assert_eq!(inputs[1].event_type, "arn:t2");
    let handler = SnsHandler::new(service(), "/p".to_string());
    assert_eq!(handler.prepare(&inputs[0]).unwrap().property_value, "x");
    assert!(matches!(handler.prepare(&inputs[1]), Err(HarnessError::InvalidEvent(_))));
}

#[test]
fn eventbridge_input_defaults_the_type() {
    let input = EventBridgeHandler::<()>::event_input(&None, "{\"k\":\"v\"}".to_string());
    assert_eq!(input.event_type, "");
    let input = EventBridgeHandler::<()>::event_input(&Some("Order".into()), "{\"k\":\"v\"}".to_string());
    assert_eq!(input.event_type, "Order");
    let handler = EventBridgeHandler::new(service(), "/k".to_string());
    assert_eq!(handler.prepare(&input).unwrap().property_value, "v");
}

#[test]
fn http_response_carries_cors_headers() {
    let r = HttpHandler::<()>::response(&Some("[]".to_string()));
    assert_eq!(r.status, 200);
    assert_eq!(r.body, "[]");
    let headers: Vec<(&str, &str)> = r.headers.iter().map(|(a, b)| (a.as_str(), b.as_str())).collect();
    assert_eq!(
        headers,
        vec![
            ("content-type", "application/json"),
            ("Access-Control-Allow-Origin", "*"),
            ("Access-Control-Allow-Headers", "Content-Type"),
            ("Access-Control-Allow-Methods", "POST,GET,PUT,DELETE"),
        ]
    );
    assert_eq!(HttpHandler::<()>::response(&None).body, "");
}

#[test]
fn http_identifier_defaults_to_empty() {
    assert_eq!(HttpHandler::<()>::identifier(&None), "");
    assert_eq!(HttpHandler::<()>::identifier(&Some("abc".into())), "abc");
    let h = HttpHandler::new(service());
    assert!(Arc::ptr_eq(h.event_service(), h.event_service()));
}

#[test]
fn container_polls_each_channel() {
    let config = TestConfig {
        channels_under_test: vec![
            ChannelUnderTest { channel_type: Channels::SQS { queue_url: "https://q/1".into() } },
            ChannelUnderTest { channel_type: Channels::SQS { queue_url: "https://q/2".into() } },
        ],
    };
    let runner = ContainerRunner::new(config);
    assert_eq!(runner.queue_urls(), vec!["https://q/1".to_string(), "https://q/2".to_string()]);
}

#[test]
fn container_delivers_bodies_and_receipts() {
    assert!(SqsConfig::deliveries(None).is_empty());
    let batch = vec![
        ReceivedMessage { body: Some("b1".into()), receipt_handle: Some("r1".into()) },
        ReceivedMessage { body: Some("b2".into()), receipt_handle: Some("r2".into()) },
    ];
    let d = SqsConfig::deliveries(Some(batch));
    assert_eq!(d.len(), 2);
    assert_eq!(d[1].body, "b2");
    assert_eq!(d[1].receipt_handle, "r2");
    assert_eq!(SqsConfig::new("u".into()).queue_url, "u");
}

#[test]
fn batches_run_in_order_and_stop_at_the_first_failure() {
    assert_eq!(next_step(3, 0, false), BatchStep::Process(0));
    assert_eq!(next_step(3, 2, false), BatchStep::Process(2));
    assert_eq!(next_step(3, 3, false), BatchStep::Finished);
    assert_eq!(next_step(3, 1, true), BatchStep::Stop);
    assert_eq!(next_step(0, 0, false), BatchStep::Finished);
}
