//! The records in which a registry is stored, and the way between the two.
//!
//! An item is stored as a JSON object: the fields that the item writes of
//! itself, its tag under `type` among them, and its price under `price`. A
//! record is read by its tag. One whose tag names no kind of item is passed
//! over. One that has no tag, or lacks a field that its kind needs, is not
//! well formed, and a store that holds such a record cannot be loaded at
//! all.

use crate::items::{AnyItem, Car, Dog, Fox, Item, ItemView, Kind};
use crate::json::{json_of, member, members_of, number, object, Json, Record};
use crate::market::MarketPlace;
use serde_json::Value;
use vstd::prelude::*;

verus! {

/// The members of a record; none where it is no object.
pub open spec fn fields_of(record: Json) -> Map<Seq<char>, Json> {
    match record {
        Json::Object(members) => members,
        _ => Map::empty(),
    }
}

/// The text under `key`, where there is one.
pub open spec fn text_field(record: Json, key: Seq<char>) -> Option<Seq<char>> {
    if fields_of(record).contains_key(key) {
        match fields_of(record)[key] {
            Json::Text(words) => Some(words),
            _ => None,
        }
    } else {
        None
    }
}

/// The integer under `key`, where there is one from `low` to `high`.
pub open spec fn whole_field(record: Json, key: Seq<char>, low: int, high: int) -> Option<int> {
    if fields_of(record).contains_key(key) {
        match fields_of(record)[key] {
            Json::Integer(n) => if low <= n <= high {
                Some(n)
            } else {
                None
            },
            _ => None,
        }
    } else {
        None
    }
}

/// The tag of a record.
pub open spec fn tag_of(record: Json) -> Option<Seq<char>> {
    text_field(record, "type"@)
}

/// The item of a given kind that a record holds: its price and the fields
/// of its kind, each of the type it has to have. Other members are not
/// looked at.
pub open spec fn decode_as(kind: Kind, record: Json) -> Option<ItemView> {
    match whole_field(record, "price"@, i32::MIN as int, i32::MAX as int) {
        None => None,
        Some(price) => match kind {
            Kind::Car => match text_field(record, "motor"@) {
                Some(motor) => Some(ItemView::Car { price: price as i32, motor }),
                None => None,
            },
            Kind::Fox => Some(ItemView::Fox { price: price as i32 }),
            Kind::Dog => match whole_field(record, "length"@, 0, u32::MAX as int) {
                Some(length) => Some(ItemView::Dog { price: price as i32, length: length as u32 }),
                None => None,
            },
        },
    }
}

/// A record is well formed if it has a tag and, where the tag names a kind,
/// holds an item of that kind.
pub open spec fn well_formed(record: Json) -> bool {
    match tag_of(record) {
        None => false,
        Some(tag) => match Kind::of_tag(tag) {
            None => true,
            Some(kind) => decode_as(kind, record) is Some,
        },
    }
}

/// The item that a record holds; none where its tag names no kind.
pub open spec fn decode(record: Json) -> Option<ItemView> {
    match tag_of(record) {
        None => None,
        Some(tag) => match Kind::of_tag(tag) {
            None => None,
            Some(kind) => decode_as(kind, record),
        },
    }
}

/// The record of an item: what it writes of itself, and its price. The
/// price is put in last, so it is the item's price whatever the item wrote.
pub open spec fn encode(item: ItemView) -> Json {
    Json::Object(item.own_fields().insert("price"@, Json::Integer(item.price() as int)))
}

/// The items that records hold, in the order of the records.
pub open spec fn decode_all(records: Seq<Json>) -> Seq<ItemView>
    decreases records.len(),
{
    if records.len() == 0 {
        Seq::empty()
    } else {
        let front = decode_all(records.drop_last());
        match decode(records.last()) {
            Some(item) => front.push(item),
            None => front,
        }
    }
}

/// The records of items, in the order of the items.
pub open spec fn encode_all(items: Seq<ItemView>) -> Seq<Json> {
    Seq::new(items.len(), |i: int| encode(items[i]))
}

/// The models of values, one by one.
pub open spec fn models(values: Seq<Value>) -> Seq<Json> {
    Seq::new(values.len(), |i: int| json_of(values[i]))
}

/// The names of the members are four different words.
proof fn lemma_keys_differ()
    ensures
        "type"@ != "price"@,
        "type"@ != "motor"@,
        "type"@ != "length"@,
        "price"@ != "motor"@,
        "price"@ != "length"@,
        "motor"@ != "length"@,
{
    reveal_strlit("type");
    reveal_strlit("price");
    reveal_strlit("motor");
    reveal_strlit("length");
    assert("type"@[0] == 't');
    assert("price"@[0] == 'p');
    assert("motor"@[0] == 'm');
    assert("length"@[0] == 'l');
}

/// What was written can be read: the record of an item is well formed and
/// holds that item.
pub proof fn lemma_round_trip_item(item: ItemView)
    ensures
        well_formed(encode(item)),
        decode(encode(item)) == Some(item),
{
    lemma_keys_differ();
    item.kind().lemma_tag_names_kind();
}

/// A registry that is stored and loaded again is the registry it was: as
/// many items, and at every place the item that was there.
pub proof fn lemma_round_trip(items: Seq<ItemView>)
    ensures
        forall|i: int| 0 <= i < items.len() ==> well_formed(#[trigger] encode_all(items)[i]),
        decode_all(encode_all(items)) == items,
    decreases items.len(),
{
    assert forall|i: int| 0 <= i < items.len() implies well_formed(
        #[trigger] encode_all(items)[i],
    ) by {
        lemma_round_trip_item(items[i]);
    }
    if items.len() > 0 {
        let front = items.drop_last();
        lemma_round_trip(front);
        lemma_round_trip_item(items.last());
        assert(encode_all(items).drop_last() =~= encode_all(front));
    }
}

/// A record without a tag that names a kind adds nothing to what is loaded.
pub proof fn lemma_unknown_tag_dropped(records: Seq<Json>, record: Json)
    requires
        match tag_of(record) {
            Some(tag) => Kind::of_tag(tag) is None,
            None => true,
        },
    ensures
        decode_all(records.push(record)) == decode_all(records),
{
    assert(records.push(record).drop_last() =~= records);
}

/// A record that holds an item adds that item at the end of what is loaded.
pub proof fn lemma_known_tag_kept(records: Seq<Json>, record: Json)
    requires
        decode(record) is Some,
    ensures
        decode_all(records.push(record)) == decode_all(records).push(decode(record)->0),
{
    assert(records.push(record).drop_last() =~= records);
}

/// The text under `key` in a record.
fn text_at<'a>(val: &'a Value, key: &str) -> (found: Option<&'a str>)
    ensures
        match found {
            Some(words) => text_field(json_of(*val), key@) == Some(words@),
            None => text_field(json_of(*val), key@) is None,
        },
{
    match member(val, key) {
        Some(under) => under.as_str(),
        None => None,
    }
}

/// The integer from `low` to `high` under `key` in a record.
fn whole_at(val: &Value, key: &str, low: i64, high: i64) -> (found: Option<i64>)
    ensures
        match found {
            Some(n) => whole_field(json_of(*val), key@, low as int, high as int) == Some(n as int),
            None => whole_field(json_of(*val), key@, low as int, high as int) is None,
        },
{
    match member(val, key) {
        Some(under) => match under.as_i64() {
            Some(n) => if low <= n && n <= high {
                Some(n)
            } else {
                None
            },
            None => None,
        },
        None => None,
    }
}

/// The view of an item that may be there.
pub open spec fn seen(item: Option<AnyItem>) -> Option<ItemView> {
    match item {
        Some(found) => Some(found@),
        None => None,
    }
}

/// Reads a record as an item of the given kind. There is none where the
/// price or a field of the kind is missing or of another type.
pub fn construct_item_type(kind: Kind, val: &Value) -> (item: Option<AnyItem>)
    ensures
        seen(item) == decode_as(kind, json_of(*val)),
{
    let price = match whole_at(val, "price", i32::MIN as i64, i32::MAX as i64) {
        Some(price) => price as i32,
        None => {
            return None;
        },
    };
    match kind {
        Kind::Car => match text_at(val, "motor") {
            Some(motor) => Some(AnyItem::Car(Car { price, motor: motor.to_owned() })),
            None => None,
        },
        Kind::Fox => Some(AnyItem::Fox(Fox { price })),
        Kind::Dog => match whole_at(val, "length", 0, u32::MAX as i64) {
            Some(length) => Some(AnyItem::Dog(Dog::new(price, length as u32))),
            None => None,
        },
    }
}

/// Whether a record is well formed.
pub fn is_well_formed(val: &Value) -> (well: bool)
    ensures
        well == well_formed(json_of(*val)),
{
    match text_at(val, "type") {
        None => false,
        Some(tag) => match Kind::from_tag(tag) {
            None => true,
            Some(kind) => construct_item_type(kind, val).is_some(),
        },
    }
}

/// Reads a well-formed record: the item it holds, or none where its tag
/// names no kind.
pub fn construct_item(val: &Value) -> (item: Option<AnyItem>)
    requires
        well_formed(json_of(*val)),
    ensures
        seen(item) == decode(json_of(*val)),
{
    match text_at(val, "type") {
        None => None,
        Some(tag) => match Kind::from_tag(tag) {
            None => None,
            Some(kind) => construct_item_type(kind, val),
        },
    }
}

/// A record is not well formed.
#[derive(Clone, Copy, Debug, PartialEq, Eq)]
pub struct Malformed;

/// Reads any record: the item it holds or none, as `construct_item` has
/// it, where the record is well formed, and an error where it is not.
pub fn try_construct_item(val: &Value) -> (read: Result<Option<AnyItem>, Malformed>)
    ensures
        match read {
            Ok(item) => well_formed(json_of(*val)) && seen(item) == decode(json_of(*val)),
            Err(_) => !well_formed(json_of(*val)),
        },
{
    if is_well_formed(val) {
        Ok(construct_item(val))
    } else {
        Err(Malformed)
    }
}

/// Lays a price onto the fields of a record and closes the record. The
/// price takes the place of whatever the fields held under `price`.
pub fn priced(fields: Record, price: i32) -> (val: Value)
    ensures
        json_of(val) == Json::Object(
            members_of(fields).insert("price"@, Json::Integer(price as int)),
        ),
        fields_of(json_of(val))["price"@] == Json::Integer(price as int),
{
    let mut fields = fields;
    fields.insert("price".to_owned(), number(price as i64));
    object(fields)
}

/// The record of an item. It is well formed and holds the item.
pub fn construct_value(item: &AnyItem) -> (val: Value)
    ensures
        json_of(val) == encode(item@),
        well_formed(json_of(val)),
        decode(json_of(val)) == Some(item@),
{
    proof {
        lemma_round_trip_item(item@);
    }
    priced(item.serialize(), item.price())
}

/// A registry as it is stored: the records of its items, in their order.
pub struct MarketPlaceStore {
    items: Vec<Value>,
}

impl View for MarketPlaceStore {
    type V = Seq<Json>;

    /// What the records hold, one by one.
    closed spec fn view(&self) -> Seq<Json> {
        models(self.items@)
    }
}

impl MarketPlaceStore {
    /// The records themselves.
    pub closed spec fn records(&self) -> Seq<Value> {
        self.items@
    }

    /// The view of a store is the models of its records.
    pub proof fn lemma_view_of_records(&self)
        ensures
            self@ == models(self.records()),
    {
    }

    /// The store that holds the given records.
    pub fn new(items: Vec<Value>) -> (store: Self)
        ensures
            store.records() == items@,
            store@ == models(items@),
    {
        MarketPlaceStore { items }
    }

    /// The records.
    pub fn items(&self) -> (items: &Vec<Value>)
        ensures
            items@ == self.records(),
            models(items@) == self@,
    {
        &self.items
    }

    /// The records, by value.
    pub fn into_items(self) -> (items: Vec<Value>)
        ensures
            items@ == self.records(),
            models(items@) == self@,
    {
        self.items
    }

    /// A store can be loaded if every record in it is well formed.
    pub open spec fn loadable(&self) -> bool {
        forall|i: int| 0 <= i < self@.len() ==> well_formed(#[trigger] self@[i])
    }

    /// Whether the store can be loaded.
    pub fn is_loadable(&self) -> (loadable: bool)
        ensures
            loadable == self.loadable(),
    {
        let mut at: usize = 0;
        while at < self.items.len()
            invariant
                at <= self.items@.len(),
                forall|i: int| 0 <= i < at ==> well_formed(#[trigger] self@[i]),
            decreases self.items@.len() - at,
        {
            if !is_well_formed(&self.items[at]) {
                assert(!well_formed(self@[at as int]));
                return false;
            }
            at += 1;
        }
        true
    }

    /// Takes down a registry: the record of every item, in order. The
    /// store shares nothing with the registry, can be loaded, and holds the
    /// registry as it was.
    pub fn from_market_place(market_place: &MarketPlace) -> (store: Self)
        ensures
            store@ == encode_all(market_place@),
            store.loadable(),
            decode_all(store@) == market_place@,
    {
        let mut items: Vec<Value> = Vec::new();
        let mut at: usize = 0;
        while at < market_place.len()
            invariant
                at <= market_place@.len(),
                items@.len() == at,
                forall|i: int| 0 <= i < at ==> json_of(#[trigger] items@[i]) == encode(
                    market_place@[i],
                ),
            decreases market_place@.len() - at,
        {
            let item = market_place.get(at).unwrap();
            items.push(construct_value(item));
            at += 1;
        }
        let store = MarketPlaceStore { items };
        proof {
            assert(store@ =~= encode_all(market_place@));
            lemma_round_trip(market_place@);
        }
        store
    }

    /// Builds the registry that a loadable store holds: the items of its
    /// records in the order of the records, without the records whose tag
    /// names no kind.
    pub fn generate_market_place(&self) -> (market_place: MarketPlace)
        requires
            self.loadable(),
        ensures
            market_place@ == decode_all(self@),
    {
        let mut market_place = MarketPlace::new();
        let mut at: usize = 0;
        while at < self.items.len()
            invariant
                at <= self.items@.len(),
                self.loadable(),
                market_place@ == decode_all(self@.take(at as int)),
            decreases self.items@.len() - at,
        {
            proof {
                assert(self@.take(at + 1).drop_last() =~= self@.take(at as int));
                assert(well_formed(self@[at as int]));
            }
            if let Some(item) = construct_item(&self.items[at]) {
                market_place.add_item(item);
            }
            at += 1;
        }
        assert(self@.take(at as int) =~= self@);
        market_place
    }

    /// Builds the registry that the store holds, where the store can be
    /// loaded, and nothing where it cannot: one record that is not well
    /// formed spoils the whole store.
    pub fn try_generate_market_place(&self) -> (loaded: Option<MarketPlace>)
        ensures
            match loaded {
                Some(market_place) => self.loadable() && market_place@ == decode_all(self@),
                None => !self.loadable(),
            },
    {
        if self.is_loadable() {
            Some(self.generate_market_place())
        } else {
            None
        }
    }
}

} // verus!
