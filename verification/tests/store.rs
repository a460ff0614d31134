use marketplace::items::{AnyItem, Car, Dog, Fox, Item, Kind};
use marketplace::store::{
    construct_item, construct_item_type, construct_value, is_well_formed, priced,
    try_construct_item, Malformed, MarketPlaceStore,
};
use marketplace::MarketPlace;
use serde_json::{Number, Value};

fn car(price: i32, motor: &str) -> AnyItem {
    AnyItem::Car(Car { price, motor: motor.to_string() })
}

fn fox(price: i32) -> AnyItem {
    AnyItem::Fox(Fox { price })
}

fn dog(price: i32, length: u32) -> AnyItem {
    AnyItem::Dog(Dog::new(price, length))
}

fn json(text: &str) -> Value {
    serde_json::from_str(text).unwrap()
}

fn market_of(items: &[AnyItem]) -> MarketPlace {
    let mut market = MarketPlace::new();
    for item in items {
        market.add_item(item.clone());
    }
    market
}

fn items_of(market: &MarketPlace) -> Vec<AnyItem> {
    let mut items = Vec::new();
    let mut at = 0;
    while let Some(item) = market.get(at) {
        items.push(item.clone());
        at += 1;
    }
    assert_eq!(items.len(), market.len());
    items
}

#[test]
fn a_car_is_stored_with_tag_motor_and_price() {
    let val = construct_value(&car(100, "V8"));
    assert_eq!(val, json(r#"{"type":"Car","motor":"V8","price":100}"#));
    let members = val.as_object().unwrap();
    assert_eq!(members.len(), 3);
    assert_eq!(members["price"], Value::Number(Number::from(100)));
}

#[test]
fn a_fox_is_stored_with_tag_and_price() {
    assert_eq!(construct_value(&fox(-20)), json(r#"{"type":"Fox","price":-20}"#));
}

#[test]
fn a_dog_is_stored_with_tag_length_and_price() {
    assert_eq!(construct_value(&dog(7, 60)), json(r#"{"type":"Dog","length":60,"price":7}"#));
    assert_eq!(
        construct_value(&dog(i32::MIN, u32::MAX)),
        json(r#"{"type":"Dog","length":4294967295,"price":-2147483648}"#)
    );
}

#[test]
fn the_price_laid_on_takes_the_place_of_one_that_was_there() {
    let mut fields = serde_json::Map::new();
    fields.insert("type".to_string(), Value::from("Car"));
    fields.insert("price".to_string(), Value::from(1));
    fields.insert("motor".to_string(), Value::from("V8"));
    assert_eq!(priced(fields, 100), json(r#"{"type":"Car","motor":"V8","price":100}"#));

    let mut fields = serde_json::Map::new();
    fields.insert("price".to_string(), Value::from("gratis"));
    assert_eq!(priced(fields, -3), json(r#"{"price":-3}"#));
}

#[test]
fn a_price_is_laid_on_fields_that_had_none() {
    assert_eq!(priced(serde_json::Map::new(), 0), json(r#"{"price":0}"#));
    assert_eq!(priced(Fox { price: 9 }.serialize(), 5), json(r#"{"type":"Fox","price":5}"#));
}

#[test]
fn records_are_read_by_their_tag() {
    assert_eq!(
        construct_item(&json(r#"{"type":"Car","price":100,"motor":"V8"}"#)),
        Some(car(100, "V8"))
    );
    assert_eq!(construct_item(&json(r#"{"type":"Fox","price":20}"#)), Some(fox(20)));
    assert_eq!(
        construct_item(&json(r#"{"type":"Dog","price":7,"length":60}"#)),
        Some(dog(7, 60))
    );
}

#[test]
fn a_record_with_an_unknown_tag_holds_no_item() {
    for text in [
        r#"{"type":"Cat","price":5}"#,
        r#"{"type":"car","price":5,"motor":"V8"}"#,
        r#"{"type":"Bil","price":5,"motor":"V8"}"#,
        r#"{"type":"","price":5}"#,
        r#"{"type":"Boat"}"#,
    ] {
        let val = json(text);
        assert!(is_well_formed(&val), "{}", text);
        assert_eq!(construct_item(&val), None, "{}", text);
        assert_eq!(try_construct_item(&val), Ok(None), "{}", text);
    }
}

#[test]
fn members_that_no_kind_asks_for_are_not_looked_at() {
    assert_eq!(
        construct_item(&json(r#"{"type":"Fox","price":20,"motor":"V8","colour":"red"}"#)),
        Some(fox(20))
    );
    assert_eq!(
        construct_item(&json(r#"{"length":"long","type":"Car","price":1,"motor":"V8"}"#)),
        Some(car(1, "V8"))
    );
}

#[test]
fn records_that_are_not_well_formed_are_told_apart() {
    for text in [
        // no tag, or one that is no text
        r#"{}"#,
        r#"{"price":5}"#,
        r#"{"type":5,"price":5}"#,
        r#"{"type":null,"price":5}"#,
        r#"{"type":["Fox"],"price":5}"#,
        // no object at all
        r#"null"#,
        r#"5"#,
        r#""Fox""#,
        r#"["Fox",5]"#,
        r#"true"#,
        // the price is missing or no integer of 32 bits
        r#"{"type":"Fox"}"#,
        r#"{"type":"Fox","price":"20"}"#,
        r#"{"type":"Fox","price":20.0}"#,
        r#"{"type":"Fox","price":20.5}"#,
        r#"{"type":"Fox","price":null}"#,
        r#"{"type":"Fox","price":2147483648}"#,
        r#"{"type":"Fox","price":-2147483649}"#,
        r#"{"type":"Fox","price":18446744073709551615}"#,
        r#"{"type":"Fox","Price":20}"#,
        // a field of the kind is missing or of another type
        r#"{"type":"Car","price":100}"#,
        r#"{"type":"Car","price":100,"motor":8}"#,
        r#"{"type":"Car","price":100,"motor":null}"#,
        r#"{"type":"Car","motor":"V8"}"#,
        r#"{"type":"Dog","price":7}"#,
        r#"{"type":"Dog","price":7,"length":-1}"#,
        r#"{"type":"Dog","price":7,"length":4294967296}"#,
        r#"{"type":"Dog","price":7,"length":"60"}"#,
        r#"{"type":"Dog","price":7,"length":60.0}"#,
    ] {
        let val = json(text);
        assert!(!is_well_formed(&val), "{}", text);
        assert_eq!(try_construct_item(&val), Err(Malformed), "{}", text);
    }
}

#[test]
fn the_ends_of_the_fields_are_read() {
    assert_eq!(
        try_construct_item(&json(r#"{"type":"Fox","price":2147483647}"#)),
        Ok(Some(fox(i32::MAX)))
    );
    assert_eq!(
        try_construct_item(&json(r#"{"type":"Fox","price":-2147483648}"#)),
        Ok(Some(fox(i32::MIN)))
    );
    assert_eq!(
        try_construct_item(&json(r#"{"type":"Dog","price":0,"length":4294967295}"#)),
        Ok(Some(dog(0, u32::MAX)))
    );
    assert_eq!(
        try_construct_item(&json(r#"{"type":"Dog","price":0,"length":0}"#)),
        Ok(Some(dog(0, 0)))
    );
    assert_eq!(
        try_construct_item(&json(r#"{"type":"Car","price":0,"motor":""}"#)),
        Ok(Some(car(0, "")))
    );
}

#[test]
fn a_record_is_read_as_the_kind_that_is_asked_for() {
    let val = json(r#"{"type":"Fox","price":20,"motor":"V8","length":3}"#);
    assert_eq!(construct_item_type(Kind::Car, &val), Some(car(20, "V8")));
    assert_eq!(construct_item_type(Kind::Fox, &val), Some(fox(20)));
    assert_eq!(construct_item_type(Kind::Dog, &val), Some(dog(20, 3)));
    let val = json(r#"{"type":"Car","price":20}"#);
    assert_eq!(construct_item_type(Kind::Car, &val), None);
    assert_eq!(construct_item_type(Kind::Dog, &val), None);
    assert_eq!(construct_item_type(Kind::Fox, &val), Some(fox(20)));
    assert_eq!(construct_item_type(Kind::Fox, &json("[]")), None);
}

#[test]
fn what_is_written_is_read_back() {
    for item in [
        car(100, "V8"),
        car(-1, ""),
        car(0, "rak \"sexa\" \\ räv"),
        fox(20),
        fox(i32::MIN),
        fox(i32::MAX),
        dog(7, 60),
        dog(0, 0),
        dog(-7, u32::MAX),
    ] {
        let val = construct_value(&item);
        assert!(is_well_formed(&val));
        assert_eq!(construct_item(&val), Some(item.clone()));
        assert_eq!(try_construct_item(&val), Ok(Some(item)));
    }
}

#[test]
fn a_registry_that_is_stored_and_loaded_is_the_same() {
    let items = vec![car(100, "V8"), fox(20), dog(7, 60), fox(20), car(-5, "")];
    let market = market_of(&items);
    let store = MarketPlaceStore::from_market_place(&market);
    assert!(store.is_loadable());
    let back = store.generate_market_place();
    assert_eq!(back.len(), market.len());
    assert_eq!(items_of(&back), items);
    assert_eq!(back.list_items(), market.list_items());
    assert_eq!(store.try_generate_market_place().map(|m| items_of(&m)), Some(items));
}

#[test]
fn an_empty_registry_is_stored_as_no_records() {
    let store = MarketPlaceStore::from_market_place(&MarketPlace::new());
    assert!(store.items().is_empty());
    assert!(store.is_loadable());
    assert_eq!(store.generate_market_place().len(), 0);
    let store = MarketPlaceStore::new(Vec::new());
    assert_eq!(store.try_generate_market_place().map(|m| m.len()), Some(0));
}

#[test]
fn the_records_stand_in_the_order_of_the_items() {
    let market = market_of(&[car(100, "V8"), fox(20), dog(7, 60)]);
    let store = MarketPlaceStore::from_market_place(&market);
    assert_eq!(
        store.items(),
        &vec![
            json(r#"{"type":"Car","motor":"V8","price":100}"#),
            json(r#"{"type":"Fox","price":20}"#),
            json(r#"{"type":"Dog","length":60,"price":7}"#),
        ]
    );
    assert_eq!(store.into_items().len(), 3);
}

#[test]
fn a_store_is_a_snapshot() {
    let mut market = market_of(&[car(100, "V8"), fox(20)]);
    let store = MarketPlaceStore::from_market_place(&market);
    assert!(market.change_price(0, 1));
    assert_eq!(market.remove_item(1), Some(fox(20)));
    assert_eq!(items_of(&store.generate_market_place()), vec![car(100, "V8"), fox(20)]);
    let mut loaded = store.generate_market_place();
    assert!(loaded.change_price(1, 2));
    assert_eq!(items_of(&store.generate_market_place()), vec![car(100, "V8"), fox(20)]);
}

#[test]
fn an_unknown_tag_is_dropped_on_load() {
    let store = MarketPlaceStore::new(vec![
        json(r#"{"type":"Fox","price":20}"#),
        json(r#"{"type":"Cat","price":5}"#),
    ]);
    assert!(store.is_loadable());
    let market = store.generate_market_place();
    assert_eq!(market.len(), 1);
    assert_eq!(items_of(&market), vec![fox(20)]);
}

#[test]
fn the_items_that_are_left_keep_their_order() {
    let store = MarketPlaceStore::new(vec![
        json(r#"{"type":"Boat","price":5}"#),
        json(r#"{"type":"Dog","price":7,"length":60}"#),
        json(r#"{"type":"Cat"}"#),
        json(r#"{"type":"Car","price":100,"motor":"V8"}"#),
        json(r#"{"type":"Fox","price":20}"#),
        json(r#"{"type":"fox","price":20}"#),
    ]);
    assert_eq!(
        store.try_generate_market_place().map(|m| items_of(&m)),
        Some(vec![dog(7, 60), car(100, "V8"), fox(20)])
    );
}

#[test]
fn one_record_that_is_not_well_formed_spoils_the_store() {
    let good = r#"{"type":"Fox","price":20}"#;
    for bad in [
        r#"{"type":"Car","price":100}"#,
        r#"{"price":100}"#,
        r#"{"type":"Dog","price":1,"length":-5}"#,
        r#"17"#,
    ] {
        for records in [
            vec![json(bad)],
            vec![json(bad), json(good)],
            vec![json(good), json(bad)],
            vec![json(good), json(bad), json(good)],
        ] {
            let store = MarketPlaceStore::new(records);
            assert!(!store.is_loadable(), "{}", bad);
            assert!(store.try_generate_market_place().is_none(), "{}", bad);
        }
    }
}

#[test]
fn a_store_keeps_the_records_it_was_given() {
    let records = vec![json(r#"{"type":"Cat"}"#), json("null"), json(r#"{"type":"Fox","price":1}"#)];
    let store = MarketPlaceStore::new(records.clone());
    assert_eq!(store.items(), &records);
    assert_eq!(store.into_items(), records);
}
