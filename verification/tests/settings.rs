use arango_transaction::json::Json;
use arango_transaction::settings::{TransactionCollections, TransactionSettings};

fn names(list: &[&str]) -> Vec<String> {
    list.iter().map(|s| s.to_string()).collect()
}

fn object(members: Vec<(&str, Json)>) -> Json {
    Json::Object(members.into_iter().map(|(name, value)| (name.to_string(), value)).collect())
}

fn texts(list: &[&str]) -> Json {
    Json::Array(list.iter().map(|s| Json::Text(s.to_string())).collect())
}

#[test]
fn write_only_settings_leave_every_option_out() {
    let settings = TransactionSettings::new(TransactionCollections::new(names(&["orders"])));
    assert_eq!(
        settings.to_json(),
        object(vec![
            ("collections", object(vec![("write", texts(&["orders"]))])),
            ("allowImplicit", Json::Bool(true)),
        ])
    );
    assert_eq!(settings.body(), "{\"allowImplicit\":true,\"collections\":{\"write\":[\"orders\"]}}");
    let parsed: serde_json::Value = serde_json::from_str(&settings.body()).unwrap();
    let keys: Vec<&String> = parsed.as_object().unwrap().keys().collect();
    assert_eq!(keys, vec!["allowImplicit", "collections"]);
    let collections: Vec<&String> = parsed["collections"].as_object().unwrap().keys().collect();
    assert_eq!(collections, vec!["write"]);
    assert_eq!(parsed["allowImplicit"], serde_json::Value::Bool(true));
}

#[test]
fn every_option_given_is_written() {
    let collections = TransactionCollections::new(names(&["orders", "items"])).read(names(&["users"]));
    let settings = TransactionSettings::new(collections)
        .wait_for_sync(false)
        .allow_implicit(false)
        .lock_timeout(30)
        .max_transaction_size(1048576);
    assert_eq!(
        settings.to_json(),
        object(vec![
            (
                "collections",
                object(vec![("read", texts(&["users"])), ("write", texts(&["orders", "items"]))]),
            ),
            ("waitForSync", Json::Bool(false)),
            ("allowImplicit", Json::Bool(false)),
            ("lockTimeout", Json::UInt(30)),
            ("maxTransactionSize", Json::UInt(1048576)),
        ])
    );
    assert_eq!(
        settings.body(),
        "{\"allowImplicit\":false,\"collections\":{\"read\":[\"users\"],\"write\":[\"orders\",\"items\"]},\"lockTimeout\":30,\"maxTransactionSize\":1048576,\"waitForSync\":false}"
    );
}

#[test]
fn empty_lists_are_written_as_empty_arrays() {
    let collections = TransactionCollections::new(vec![]).read(vec![]);
    assert_eq!(collections.to_json(), object(vec![("read", texts(&[])), ("write", texts(&[]))]));
    let settings = TransactionSettings::new(collections).wait_for_sync(true);
    assert_eq!(
        settings.body(),
        "{\"allowImplicit\":true,\"collections\":{\"read\":[],\"write\":[]},\"waitForSync\":true}"
    );
}

#[test]
fn a_later_setting_replaces_an_earlier_one() {
    let settings = TransactionSettings::new(TransactionCollections::new(names(&["a"])))
        .lock_timeout(1)
        .lock_timeout(2);
    assert_eq!(settings.body(), "{\"allowImplicit\":true,\"collections\":{\"write\":[\"a\"]},\"lockTimeout\":2}");
}

#[test]
fn names_are_escaped_as_json_texts() {
    let settings = TransactionSettings::new(TransactionCollections::new(names(&["a\"b\\c\n"])));
    assert_eq!(
        settings.body(),
        "{\"allowImplicit\":true,\"collections\":{\"write\":[\"a\\\"b\\\\c\\n\"]}}"
    );
}

#[test]
fn collections_named_twice_are_told() {
    assert!(TransactionCollections::new(names(&["orders"])).is_consistent());
    assert!(TransactionCollections::new(names(&["orders"])).read(names(&[])).is_consistent());
    assert!(TransactionCollections::new(names(&[])).read(names(&["users"])).is_consistent());
    assert!(TransactionCollections::new(names(&["orders", "items"]))
        .read(names(&["users", "stock"]))
        .is_consistent());
    assert!(!TransactionCollections::new(names(&["orders", "items"]))
        .read(names(&["users", "items"]))
        .is_consistent());
    assert!(!TransactionCollections::new(names(&["a"])).read(names(&["a"])).is_consistent());
    let both = TransactionCollections::new(names(&["a"])).read(names(&["a"]));
    assert_eq!(both.to_json(), object(vec![("read", texts(&["a"])), ("write", texts(&["a"]))]));
}
