use event_harness::domain::{Event, Timestamp};
use event_harness::error::HarnessError;
use event_harness::infrastructure::dynamodb::{string_to_system_time, Item, ItemValue};
use event_harness::infrastructure::DynamoDbRepository;

fn text(item: &Item, key: &str) -> Option<String> {
    item.attributes.iter().find(|(k, _)| k == key).and_then(|(_, v)| match v {
        ItemValue::S(s) => Some(s.clone()),
        ItemValue::Other => None,
    })
}

fn event(nanos: u128) -> Event {
    Event::from(
        Timestamp { before_epoch: false, nanos },
        "type".to_string(),
        "{\"id\":\"1\"}".to_string(),
        "1".to_string(),
    )
}

#[test]
fn stored_item_layout() {
    let item = DynamoDbRepository::item_of(&event(1_724_243_200_123_456_789)).unwrap();
    let names: Vec<&str> = item.attributes.iter().map(|(k, _)| k.as_str()).collect();
    assert_eq!(names, vec!["PK", "SK", "contents", "eventType"]);
    assert_eq!(text(&item, "PK").unwrap(), "1");
    assert_eq!(text(&item, "SK").unwrap(), "1724243200123");
    assert_eq!(text(&item, "contents").unwrap(), "{\"id\":\"1\"}");
    assert_eq!(text(&item, "eventType").unwrap(), "type");
}

#[test]
fn stored_event_reads_back_at_millisecond_precision() {
    let stored = event(1_724_243_200_123_456_789);
    let item = DynamoDbRepository::item_of(&stored).unwrap();
    assert!(item.is_readable());
    let back = Event::from_item(&item);
    assert_eq!(back.timestamp, Timestamp { before_epoch: false, nanos: 1_724_243_200_123_000_000 });
    assert_eq!(back.contents, stored.contents);
    assert_eq!(back.property_value, stored.property_value);
    assert_eq!(back.event_type, stored.event_type);
}

#[test]
fn event_before_epoch_cannot_be_stored() {
    let early = Event::from(Timestamp { before_epoch: true, nanos: 5 }, "t".into(), "c".into(), "p".into());
    match DynamoDbRepository::item_of(&early) {
        Err(HarnessError::Runtime(m)) => {
            assert_eq!(m, "Invalid timestamp: second time provided was later than self")
        }
        _ => panic!("expected a runtime error"),
    }
}

#[test]
fn timestamp_strings() {
    assert_eq!(string_to_system_time("1500").ok(), Some(Timestamp { before_epoch: false, nanos: 1_500_000_000 }));
    assert_eq!(
        string_to_system_time("18446744073709551615").ok(),
        Some(Timestamp { before_epoch: false, nanos: 18446744073709551615u128 * 1_000_000 })
    );
    match string_to_system_time("18446744073709551616") {
        Err(HarnessError::Runtime(m)) => assert_eq!(m, "Timestamp value too large"),
        _ => panic!("expected too large"),
    }
    match string_to_system_time("12ab") {
        Err(HarnessError::Runtime(m)) => assert_eq!(m, "Invalid timestamp string: invalid digit found in string"),
        _ => panic!("expected invalid digit"),
    }
    match string_to_system_time("") {
        Err(HarnessError::Runtime(m)) => {
            assert_eq!(m, "Invalid timestamp string: cannot parse integer from empty string")
        }
        _ => panic!("expected empty"),
    }
}

#[test]
fn readability_of_items() {
    let good = DynamoDbRepository::item_of(&event(1_000_000)).unwrap();
    assert!(good.is_readable());
    let mut no_type = good.clone();
    no_type.attributes.retain(|(k, _)| k != "eventType");
    assert!(!no_type.is_readable());
    let mut other_kind = good.clone();
    other_kind.attributes[2].1 = ItemValue::Other;
    assert!(!other_kind.is_readable());
    let mut bad_key = good.clone();
    bad_key.attributes[1].1 = ItemValue::S("soon".to_string());
    assert!(!bad_key.is_readable());
}

#[test]
fn query_results() {
    assert!(DynamoDbRepository::events_of(None).is_empty());
    let items = vec![
        DynamoDbRepository::item_of(&event(2_000_000)).unwrap(),
        DynamoDbRepository::item_of(&event(3_000_000)).unwrap(),
    ];
    let events = DynamoDbRepository::events_of(Some(items));
    assert_eq!(events.len(), 2);
    assert_eq!(events[0].timestamp.nanos, 2_000_000);
    assert_eq!(events[1].timestamp.nanos, 3_000_000);
}

#[test]
fn the_epoch_is_stored_whichever_side_it_is_marked() {
    for before_epoch in [false, true] {
        let at_epoch = Event::from(Timestamp { before_epoch, nanos: 0 }, "t".into(), "c".into(), "p".into());
        let item = DynamoDbRepository::item_of(&at_epoch).unwrap();
        assert_eq!(text(&item, "SK").unwrap(), "0");
    }
}

#[test]
fn key_query_selects_the_partition() {
    let q = DynamoDbRepository::key_query("order-7");
    assert_eq!(q.key_condition_expression, "PK = :pk");
    assert_eq!(q.value_placeholder, ":pk");
    assert_eq!(q.partition_key, "order-7");
}
