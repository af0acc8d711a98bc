//! How events are laid out as DynamoDB items, and read back from them.
use vstd::prelude::*;

use crate::decimal::{
    decimal, decimal_error_message, decimal_error_text, lemma_parse_decimal_roundtrip, parse_decimal,
    parse_unsigned, write_decimal,
};
use crate::domain::{Event, EventView, Timestamp};
use crate::error::HarnessError;
use crate::text::{chars_of, string_of};

verus! {

/// One attribute value of an item: a string attribute with its text, or any
/// other kind of attribute, which nothing here reads.
#[derive(Debug, Clone)]
pub enum ItemValue {
    S(String),
    Other,
}

/// A DynamoDB item: its attributes by name, each name once.
#[derive(Debug, Clone)]
pub struct Item {
    pub attributes: Vec<(String, ItemValue)>,
}

/// An attribute as a name and, for a string attribute, its text.
pub type AttributeView = (Seq<char>, Option<Seq<char>>);

pub open spec fn item_value_text(v: ItemValue) -> Option<Seq<char>> {
    match v {
        ItemValue::S(s) => Some(s@),
        ItemValue::Other => None,
    }
}

/// A string attribute is seen with its whole text; any other kind has none.
pub proof fn law_attribute_text(s: String)
    ensures
        item_value_text(ItemValue::S(s)) == Some(s@),
        item_value_text(ItemValue::Other) is None,
{
}

impl View for Item {
    type V = Seq<AttributeView>;

    open spec fn view(&self) -> Seq<AttributeView> {
        self.attributes@.map_values(|a: (String, ItemValue)| (a.0@, item_value_text(a.1)))
    }
}

/// The attribute named `key`, if there is one: `Some(text)` for a string attribute.
pub open spec fn item_get(attributes: Seq<AttributeView>, key: Seq<char>) -> Option<Option<Seq<char>>>
    decreases attributes.len(),
{
    if attributes.len() == 0 {
        None
    } else if attributes[0].0 == key {
        Some(attributes[0].1)
    } else {
        item_get(attributes.drop_first(), key)
    }
}

/// The text of string attribute `key`, where the item has one.
pub open spec fn item_text(attributes: Seq<AttributeView>, key: Seq<char>) -> Option<Seq<char>> {
    match item_get(attributes, key) {
        Some(Some(t)) => Some(t),
        _ => None,
    }
}

/// The timestamp that `text`, a count of milliseconds since the epoch, stands
/// for; `Err` carries the message of the failure.
pub open spec fn timestamp_from_text(text: Seq<char>) -> Result<Timestamp, Seq<char>> {
    match parse_unsigned(text, u128::MAX as nat) {
        Err(e) => Err("Invalid timestamp string: "@ + decimal_error_message(e)),
        Ok(n) => if n > u64::MAX {
            Err("Timestamp value too large"@)
        } else {
            Ok(Timestamp::from_millis(n))
        },
    }
}

/// The attributes an event is stored under: partition key `PK` is its property
/// value, sort key `SK` its time in milliseconds since the epoch; `None` for an
/// event stamped strictly before the epoch, which cannot be stored.
pub open spec fn stored_item(e: EventView) -> Option<Seq<AttributeView>> {
    if e.timestamp.is_before_epoch() {
        None
    } else {
        Some(
            seq![
                ("PK"@, Some(e.property_value)),
                ("SK"@, Some(decimal(e.timestamp.millis()))),
                ("contents"@, Some(e.contents)),
                ("eventType"@, Some(e.event_type)),
            ],
        )
    }
}

/// Whether an event can be read from `attributes`: the four string attributes
/// are there and `SK` holds a timestamp.
pub open spec fn item_readable(attributes: Seq<AttributeView>) -> bool {
    &&& item_text(attributes, "PK"@) is Some
    &&& item_text(attributes, "contents"@) is Some
    &&& item_text(attributes, "eventType"@) is Some
    &&& item_text(attributes, "SK"@) matches Some(t) && timestamp_from_text(t) is Ok
}

/// The event read from a readable item.
pub open spec fn event_of_item(attributes: Seq<AttributeView>) -> EventView {
    EventView {
        timestamp: timestamp_from_text(item_text(attributes, "SK"@)->0)->Ok_0,
        contents: item_text(attributes, "contents"@)->0,
        property_value: item_text(attributes, "PK"@)->0,
        event_type: item_text(attributes, "eventType"@)->0,
    }
}

/// Whether no two attributes share a name, as in the maps items come from.
pub open spec fn names_distinct(a: Seq<AttributeView>) -> bool {
    forall|i: int, j: int| 0 <= i < a.len() && 0 <= j < a.len() && i != j ==> a[i].0 != a[j].0
}

/// With distinct names, looking a name up finds the attribute of that name,
/// wherever it stands, and finds nothing where there is none.
proof fn lemma_item_get_by_name(a: Seq<AttributeView>, key: Seq<char>)
    requires
        names_distinct(a),
    ensures
        forall|i: int| 0 <= i < a.len() && a[i].0 == key ==> item_get(a, key) == Some(a[i].1),
        (forall|i: int| 0 <= i < a.len() ==> a[i].0 != key) ==> item_get(a, key) is None,
    decreases a.len(),
{
    if a.len() > 0 {
        let rest = a.drop_first();
        assert(names_distinct(rest)) by {
            assert forall|i: int, j: int| 0 <= i < rest.len() && 0 <= j < rest.len() && i != j implies rest[i].0
                != rest[j].0 by {
                assert(rest[i] == a[i + 1] && rest[j] == a[j + 1]);
            }
        }
        lemma_item_get_by_name(rest, key);
        assert forall|i: int| 0 <= i < a.len() && a[i].0 == key implies item_get(a, key) == Some(a[i].1) by {
            if i > 0 {
                assert(a[0].0 != key);
                assert(rest[i - 1] == a[i]);
            }
        }
        if forall|i: int| 0 <= i < a.len() ==> a[i].0 != key {
            assert forall|i: int| 0 <= i < rest.len() implies rest[i].0 != key by {
                assert(rest[i] == a[i + 1]);
            }
        }
    }
}

/// The text of string attribute `name` found at some position of `a`.
pub open spec fn has_text_at(a: Seq<AttributeView>, name: Seq<char>, i: int, text: Seq<char>) -> bool {
    0 <= i < a.len() && a[i].0 == name && a[i].1 == Some(text)
}

/// An item is read by its attributes' names, not by their order: where no two
/// attributes share a name, it is readable exactly when `PK`, `contents` and
/// `eventType` are string attributes somewhere in it and `SK` is a string attribute
/// holding a timestamp; the event read carries those texts and that timestamp.
pub proof fn law_item_read_by_name(a: Seq<AttributeView>)
    requires
        names_distinct(a),
    ensures
        item_readable(a) <==> {
            &&& exists|i: int, t: Seq<char>| has_text_at(a, "PK"@, i, t)
            &&& exists|i: int, t: Seq<char>| has_text_at(a, "contents"@, i, t)
            &&& exists|i: int, t: Seq<char>| has_text_at(a, "eventType"@, i, t)
            &&& exists|i: int, t: Seq<char>| has_text_at(a, "SK"@, i, t) && timestamp_from_text(t) is Ok
        },
        item_readable(a) ==> forall|i: int, t: Seq<char>|
            #![trigger has_text_at(a, "PK"@, i, t)]
            has_text_at(a, "PK"@, i, t) ==> event_of_item(a).property_value == t,
        item_readable(a) ==> forall|i: int, t: Seq<char>|
            #![trigger has_text_at(a, "contents"@, i, t)]
            has_text_at(a, "contents"@, i, t) ==> event_of_item(a).contents == t,
        item_readable(a) ==> forall|i: int, t: Seq<char>|
            #![trigger has_text_at(a, "eventType"@, i, t)]
            has_text_at(a, "eventType"@, i, t) ==> event_of_item(a).event_type == t,
        item_readable(a) ==> forall|i: int, t: Seq<char>|
            #![trigger has_text_at(a, "SK"@, i, t)]
            has_text_at(a, "SK"@, i, t) ==> timestamp_from_text(t) == Ok::<Timestamp, Seq<char>>(
                event_of_item(a).timestamp,
            ),
{
    lemma_item_get_by_name(a, "PK"@);
    lemma_item_get_by_name(a, "contents"@);
    lemma_item_get_by_name(a, "eventType"@);
    lemma_item_get_by_name(a, "SK"@);
    let names = seq!["PK"@, "contents"@, "eventType"@, "SK"@];
    assert forall|k: int| 0 <= k < 4 implies (item_text(a, #[trigger] names[k]) is Some <==> exists|i: int,
        t: Seq<char>| has_text_at(a, names[k], i, t)) by {
        let key = names[k];
        if item_text(a, key) is Some {
            let t = item_text(a, key)->0;
            if forall|i: int| 0 <= i < a.len() ==> a[i].0 != key {
                assert(false);
            } else {
                let i = choose|i: int| !(0 <= i < a.len() ==> a[i].0 != key);
                assert(has_text_at(a, key, i, t));
            }
        }
        if exists|i: int, t: Seq<char>| has_text_at(a, key, i, t) {
            let (i, t) = choose|i: int, t: Seq<char>| has_text_at(a, key, i, t);
            assert(item_get(a, key) == Some(a[i].1));
        }
    }
    assert(names[0] == "PK"@ && names[1] == "contents"@ && names[2] == "eventType"@ && names[3] == "SK"@);
    if exists|i: int, t: Seq<char>| has_text_at(a, "SK"@, i, t) && timestamp_from_text(t) is Ok {
        let (i, t) = choose|i: int, t: Seq<char>| has_text_at(a, "SK"@, i, t) && timestamp_from_text(t) is Ok;
        assert(item_get(a, "SK"@) == Some(a[i].1));
        assert(item_text(a, "SK"@) == Some(t));
    }
    match item_text(a, "SK"@) {
        Some(t) => {
            if timestamp_from_text(t) is Ok {
                let (i, t2) = choose|i: int, t2: Seq<char>| has_text_at(a, "SK"@, i, t2);
                assert(item_get(a, "SK"@) == Some(a[i].1));
                assert(has_text_at(a, "SK"@, i, t));
            }
        },
        None => {},
    }
}

/// The message for an event stamped before the epoch, as `SystemTimeError` displays it.
pub open spec fn before_epoch_message() -> Seq<char> {
    "Invalid timestamp: second time provided was later than self"@
}

/// Reads a timestamp written as milliseconds since the epoch.
pub fn string_to_system_time(timestamp_str: &str) -> (res: Result<Timestamp, HarnessError>)
    ensures
        match timestamp_from_text(timestamp_str@) {
            Ok(t) => res matches Ok(r) && r == t,
            Err(m) => res matches Err(HarnessError::Runtime(r)) && r@ == m,
        },
{
    let chars = chars_of(timestamp_str);
    match parse_decimal(&chars, u128::MAX) {
        Err(e) => Err(HarnessError::Runtime(String::from_str("Invalid timestamp string: ").concat(
            decimal_error_text(e).as_str(),
        ))),
        Ok(millis) => {
            if millis > u64::MAX as u128 {
                Err(HarnessError::Runtime(String::from_str("Timestamp value too large")))
            } else {
                Ok(Timestamp { before_epoch: false, nanos: millis * 1_000_000 })
            }
        },
    }
}

/// The text of the first attribute named `key` where it is a string attribute.
fn attribute_text<'a>(item: &'a Item, key: &str) -> (res: Option<&'a String>)
    ensures
        match res {
            Some(s) => item_text(item@, key@) == Some(s@),
            None => item_text(item@, key@) is None,
        },
{
    let name = String::from_str(key);
    let n = item.attributes.len();
    let mut i: usize = 0;
    assert(item@.skip(0) =~= item@);
    while i < n
        invariant
            n == item.attributes@.len(),
            name@ == key@,
            i <= n,
            item_get(item@, key@) == item_get(item@.skip(i as int), key@),
        decreases n - i,
    {
        assert(item@.skip(i as int)[0] == item@[i as int]);
        assert(item@.skip(i as int).drop_first() =~= item@.skip(i + 1));
        if item.attributes[i].0 == name {
            return match &item.attributes[i].1 {
                ItemValue::S(s) => Some(s),
                ItemValue::Other => None,
            };
        }
        i = i + 1;
    }
    None
}

impl Item {
    /// Whether an event can be read from this item (see `item_readable`).
    pub fn is_readable(&self) -> (res: bool)
        ensures
            res == item_readable(self@),
    {
        let pk = attribute_text(self, "PK");
        let contents = attribute_text(self, "contents");
        let event_type = attribute_text(self, "eventType");
        let sk = attribute_text(self, "SK");
        if pk.is_none() || contents.is_none() || event_type.is_none() {
            return false;
        }
        match sk {
            Some(t) => string_to_system_time(t.as_str()).is_ok(),
            None => false,
        }
    }
}

impl Event {
    /// The event stored in `item`, read back.
    pub fn from_item(item: &Item) -> (res: Event)
        requires
            item_readable(item@),
        ensures
            res@ == event_of_item(item@),
    {
        let pk = attribute_text(item, "PK");
        let contents = attribute_text(item, "contents");
        let event_type = attribute_text(item, "eventType");
        let sk = attribute_text(item, "SK");
        match (pk, contents, event_type, sk) {
            (Some(pk), Some(contents), Some(event_type), Some(sk)) => {
                let timestamp = match string_to_system_time(sk.as_str()) {
                    Ok(t) => t,
                    Err(_) => {
                        assert(false);
                        Timestamp { before_epoch: false, nanos: 0 }
                    },
                };
                Event::from(timestamp, event_type.clone(), contents.clone(), pk.clone())
            },
            _ => {
                assert(false);
                Event::from(Timestamp { before_epoch: false, nanos: 0 }, String::new(), String::new(), String::new())
            },
        }
    }
}

/// An event that was stored reads back as the same event, its time cut to whole
/// milliseconds: what `find_by_id` returns for a partition key is what `save` wrote.
/// This holds for every event not stamped before the epoch whose milliseconds fit in a `u64`
/// (later ones are stored, but their sort key is refused on reading).
pub proof fn law_stored_event_reads_back(e: EventView)
    requires
        !e.timestamp.is_before_epoch(),
        e.timestamp.millis() <= u64::MAX,
    ensures
        stored_item(e) is Some,
        item_readable(stored_item(e)->0),
        event_of_item(stored_item(e)->0) == (EventView {
            timestamp: Timestamp::from_millis(e.timestamp.millis()),
            contents: e.contents,
            property_value: e.property_value,
            event_type: e.event_type,
        }),
{
    reveal_strlit("PK");
    reveal_strlit("SK");
    reveal_strlit("contents");
    reveal_strlit("eventType");
    let a = stored_item(e)->0;
    reveal_with_fuel(item_get, 5);
    assert(a.drop_first()[0] == a[1]);
    assert(a.drop_first().drop_first()[0] == a[2]);
    assert(a.drop_first().drop_first().drop_first()[0] == a[3]);
    assert("PK"@[0] != "SK"@[0]);
    assert("PK"@ != "SK"@);
    assert("PK"@.len() != "contents"@.len());
    assert("SK"@.len() != "contents"@.len());
    assert(item_get(a.drop_first(), "SK"@) == Some(Some(decimal(e.timestamp.millis()))));
    assert(item_get(a.drop_first().drop_first(), "contents"@) == Some(Some(e.contents)));
    assert(item_get(a.drop_first(), "contents"@) == Some(Some(e.contents)));
    assert(item_text(a, "PK"@) == Some(e.property_value));
    assert(item_text(a, "SK"@) == Some(decimal(e.timestamp.millis())));
    assert(item_text(a, "contents"@) == Some(e.contents));
    assert(item_text(a, "eventType"@) == Some(e.event_type));
    lemma_parse_decimal_roundtrip(e.timestamp.millis(), u128::MAX as nat);
}

/// A query for the items under one partition key: the key condition, the
/// placeholder it uses, and the value that stands for the placeholder.
#[derive(Debug, Clone)]
pub struct KeyQuery {
    pub key_condition_expression: String,
    pub value_placeholder: String,
    pub partition_key: String,
}

/// `aws_sdk_dynamodb::Client`, held opaquely for the requests `app/` sends.
#[verifier::external_type_specification]
#[verifier::external_body]
pub struct ExDynamoDbClient(aws_sdk_dynamodb::Client);

/// Stores events in a DynamoDB table through `client`.
pub struct DynamoDbRepository {
    client: aws_sdk_dynamodb::Client,
    table_name: String,
}

impl DynamoDbRepository {
    pub closed spec fn spec_client(&self) -> aws_sdk_dynamodb::Client {
        self.client
    }

    pub closed spec fn spec_table_name(&self) -> Seq<char> {
        self.table_name@
    }

    pub fn new(client: aws_sdk_dynamodb::Client, table_name: String) -> (res: Self)
        ensures
            res.spec_client() == client,
            res.spec_table_name() == table_name@,
    {
        DynamoDbRepository { client, table_name }
    }

    /// The client requests go through.
    pub fn client(&self) -> (res: &aws_sdk_dynamodb::Client)
        ensures
            *res == self.spec_client(),
    {
        &self.client
    }

    /// The table events are stored in.
    pub fn table_name(&self) -> (res: &String)
        ensures
            res@ == self.spec_table_name(),
    {
        &self.table_name
    }

    /// The query for the events stored under `identifier`: partition key `PK`
    /// equal to it.
    pub fn key_query(identifier: &str) -> (res: KeyQuery)
        ensures
            res.key_condition_expression@ == "PK = :pk"@,
            res.value_placeholder@ == ":pk"@,
            res.partition_key@ == identifier@,
    {
        KeyQuery {
            key_condition_expression: String::from_str("PK = :pk"),
            value_placeholder: String::from_str(":pk"),
            partition_key: String::from_str(identifier),
        }
    }

    /// The item that stores `event`, or the error for an event stamped before the epoch.
    pub fn item_of(event: &Event) -> (res: Result<Item, HarnessError>)
        ensures
            match stored_item(event@) {
                Some(attributes) => res matches Ok(item) && item@ == attributes,
                None => res matches Err(HarnessError::Runtime(m)) && m@ == before_epoch_message(),
            },
    {
        if event.timestamp.before_epoch && event.timestamp.nanos > 0 {
            return Err(HarnessError::Runtime(String::from_str(
                "Invalid timestamp: second time provided was later than self",
            )));
        }
        let millis = event.timestamp.nanos / 1_000_000;
        let sort_key = string_of(&write_decimal(millis));
        let mut attributes: Vec<(String, ItemValue)> = Vec::new();
        attributes.push((String::from_str("PK"), ItemValue::S(event.property_value.clone())));
        attributes.push((String::from_str("SK"), ItemValue::S(sort_key)));
        attributes.push((String::from_str("contents"), ItemValue::S(event.contents.clone())));
        attributes.push((String::from_str("eventType"), ItemValue::S(event.event_type.clone())));
        let item = Item { attributes };
        assert(item@ =~= stored_item(event@)->0);
        Ok(item)
    }

    /// The events of a query's items, in order; `None` when the query failed
    /// or returned no item list, which gives no events.
    pub fn events_of(items: Option<Vec<Item>>) -> (res: Vec<Event>)
        requires
            items matches Some(items) ==> forall|i: int| 0 <= i < items@.len() ==> item_readable(#[trigger] items@[i]@),
        ensures
            match items {
                None => res@.len() == 0,
                Some(items) => res@.len() == items@.len() && forall|i: int| 0 <= i < items@.len()
                    ==> #[trigger] res@[i]@ == event_of_item(items@[i]@),
            },
    {
        let mut res: Vec<Event> = Vec::new();
        match items {
            None => {},
            Some(items) => {
                let n = items.len();
                let mut i: usize = 0;
                while i < n
                    invariant
                        n == items@.len(),
                        i <= n,
                        forall|j: int| 0 <= j < items@.len() ==> item_readable(#[trigger] items@[j]@),
                        res@.len() == i,
                        forall|j: int| 0 <= j < i ==> #[trigger] res@[j]@ == event_of_item(items@[j]@),
                    decreases n - i,
                {
                    res.push(Event::from_item(&items[i]));
                    i = i + 1;
                }
            },
        }
        res
    }
}

} // verus!
