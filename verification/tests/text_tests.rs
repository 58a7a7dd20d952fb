use alchemix_rx::datastore::SQLiteDatastore;
use alchemix_rx::digits::{decimal, lower_hex};
use alchemix_rx::json::event_kind;
use alchemix_rx::naming::{
    camel_to_snake_uppercase, handler_name, signal_handler_name, snake_to_camel,
    to_ascii_uppercase,
};
use alchemix_rx::rx::{
    malformed_predicate, query_response, signal_action_response, unmatched_signal,
    write_response, Action, RxAction, RxResponse,
};
use alchemix_rx::sql::{id_list_text, index_batch, key_list_text};
use alchemix_rx::store::StoreState;
use alchemix_rx::util::{hash_str, new_uuid};
use serde_json::Value;

#[test]
fn constant_style_names() {
    assert_eq!(camel_to_snake_uppercase("User"), "USER");
    assert_eq!(camel_to_snake_uppercase("UserInfo"), "USER_INFO");
    assert_eq!(camel_to_snake_uppercase("TestEntity"), "TEST_ENTITY");
    assert_eq!(camel_to_snake_uppercase("userInfo"), "USER_INFO");
    assert_eq!(camel_to_snake_uppercase("HTTPServer"), "H_T_T_P_SERVER");
    assert_eq!(camel_to_snake_uppercase("a1b"), "A1B");
    assert_eq!(camel_to_snake_uppercase(""), "");
    assert_eq!(camel_to_snake_uppercase("Été"), "ÉTé");
    for c in ['a', 'z', 'm', 'A', 'Z', '`', '{', '0', 'é', 'ß', ' '] {
        assert_eq!(to_ascii_uppercase(c), c.to_ascii_uppercase());
    }
}

#[test]
fn type_style_names() {
    assert_eq!(snake_to_camel("on_save"), "OnSave");
    assert_eq!(snake_to_camel("long_save"), "LongSave");
    assert_eq!(snake_to_camel("count_users"), "CountUsers");
    assert_eq!(snake_to_camel("add"), "Add");
    assert_eq!(snake_to_camel("__a__b_"), "AB");
    assert_eq!(snake_to_camel("on_Save"), "OnSave");
    assert_eq!(snake_to_camel("x_1_y"), "X1Y");
    assert_eq!(snake_to_camel(""), "");
    assert_eq!(snake_to_camel("_"), "");
    assert_eq!(snake_to_camel("é_é"), "éé");
    assert_eq!(handler_name("on_save"), "OnSaveHandler");
    assert_eq!(handler_name("on_derive_data"), "OnDeriveDataHandler");
    assert_eq!(signal_handler_name("count_users"), "CountUsersSignalHandler");
}

#[test]
fn numbers_as_text() {
    assert_eq!(decimal(0), "0");
    assert_eq!(decimal(9), "9");
    assert_eq!(decimal(10), "10");
    assert_eq!(decimal(1234567890), "1234567890");
    assert_eq!(decimal(u64::MAX), "18446744073709551615");
    assert_eq!(lower_hex(0), "0");
    assert_eq!(lower_hex(15), "f");
    assert_eq!(lower_hex(16), "10");
    assert_eq!(lower_hex(0xdead_beef), "deadbeef");
    assert_eq!(lower_hex(u64::MAX), "ffffffffffffffff");
    for n in [0u64, 7, 42, 100, 65535, 1 << 40] {
        assert_eq!(decimal(n), n.to_string());
        assert_eq!(lower_hex(n), format!("{:x}", n));
    }
}

#[test]
fn hashes_and_identifiers() {
    let hash = hash_str("hello");
    assert!(!hash.is_empty() && hash.len() <= 16);
    assert!(hash.chars().all(|c| c.is_ascii_digit() || ('a'..='f').contains(&c)));
    assert!(hash == "0" || !hash.starts_with('0'));
    assert_eq!(hash, hash_str("hello"));
    assert_eq!(hash_str("a longer text, twice"), hash_str("a longer text, twice"));
    assert_ne!(hash, hash_str("hellp"));
    assert_ne!(hash_str(""), hash_str("a"));

    let id = new_uuid();
    assert_eq!(id.len(), 36);
    assert_ne!(id, new_uuid());
}

#[test]
fn lists_of_ids_and_keys() {
    assert_eq!(id_list_text(&vec![]), "()");
    assert_eq!(id_list_text(&vec!["a"]), "('a')");
    assert_eq!(id_list_text(&vec!["a", "b", "c"]), "('a', 'b', 'c')");
    assert_eq!(id_list_text(&vec!["'", "a'b", "''"]), "('''', 'a''b', '''''')");
    assert_eq!(key_list_text("K'", &vec!["'"]), "('K''#''')");
    assert_eq!(key_list_text("User", &vec![]), "()");
    assert_eq!(key_list_text("User", &vec!["1"]), "('User#1')");
    assert_eq!(key_list_text("User", &vec!["1", "2"]), "('User#1', 'User#2')");
    assert_eq!(index_batch(&vec![]), "");
}

#[test]
fn kind_of_a_json_value() {
    let value: Value = serde_json::from_str(r#"{"id":"1","kind":"AddAction","left":2}"#).unwrap();
    assert_eq!(event_kind(&value), Some("AddAction".to_string()));
    let value: Value = serde_json::from_str(r#"{"id":"1","Kind":"AddAction"}"#).unwrap();
    assert_eq!(event_kind(&value), None);
    let value: Value = serde_json::from_str(r#"{"kind":12}"#).unwrap();
    assert_eq!(event_kind(&value), None);
    let value: Value = serde_json::from_str(r#"{"kind":""}"#).unwrap();
    assert_eq!(event_kind(&value), Some(String::new()));
    let value: Value = serde_json::from_str(r#"["kind"]"#).unwrap();
    assert_eq!(event_kind(&value), None);
    assert_eq!(event_kind(&Value::String("kind".to_string())), None);
}

#[test]
fn envelopes() {
    match RxAction::new_delete_action("User", vec!["a".to_string()]) {
        RxAction::DeleteEntities(kind, ids) => assert_eq!((kind.as_str(), ids), ("User", vec!["a".to_string()])),
        other => panic!("{:?}", other),
    }
    match RxAction::new_query_ids("User", vec![]) {
        RxAction::QueryIds(kind, ids) => assert!(kind == "User" && ids.is_empty()),
        other => panic!("{:?}", other),
    }
    match RxAction::new_query_property("User", "rank", "value > 1") {
        RxAction::QueryProperty(kind, name, expr) => {
            assert_eq!((kind.as_str(), name.as_str(), expr.as_str()), ("User", "rank", "value > 1"))
        }
        other => panic!("{:?}", other),
    }
    match RxAction::new_update_action("User", Value::Bool(true)) {
        RxAction::UpdateEntities(kind, value) => assert!(kind == "User" && value == Value::Bool(true)),
        other => panic!("{:?}", other),
    }
    match RxAction::new_signal(Value::Null) {
        RxAction::Signal(value) => assert_eq!(value, Value::Null),
        other => panic!("{:?}", other),
    }
    let named = Action::new("save", Value::Bool(true));
    assert_eq!(named.action, "save");
    assert_eq!(named.payload, Value::Bool(true));
    match malformed_predicate("X") {
        RxResponse::Failure(message) => assert_eq!(message, "Malformed predicate: X"),
        other => panic!("{:?}", other),
    }
    assert!(matches!(write_response(Ok(())), RxResponse::Success()));
    match write_response(Err("disk full".to_string())) {
        RxResponse::Failure(message) => assert_eq!(message, "disk full"),
        other => panic!("{:?}", other),
    }
    match query_response(Ok(Value::Bool(true))) {
        RxResponse::QueryResponse(value) => assert_eq!(value, Value::Bool(true)),
        other => panic!("{:?}", other),
    }
    match query_response(Err("no such table".to_string())) {
        RxResponse::Failure(message) => assert_eq!(message, "no such table"),
        other => panic!("{:?}", other),
    }
    match unmatched_signal("X") {
        RxResponse::Failure(message) => assert_eq!(message, "Unable to match signal - Unknown kind X"),
        other => panic!("{:?}", other),
    }
    match signal_action_response("Count", Some(Ok(Value::Bool(false)))) {
        RxResponse::SignalResponse(value) => assert_eq!(value, Value::Bool(false)),
        other => panic!("{:?}", other),
    }
    match signal_action_response("Count", Some(Err("Downcast Error".to_string()))) {
        RxResponse::Failure(message) => assert_eq!(message, "Downcast Error"),
        other => panic!("{:?}", other),
    }
    match signal_action_response("Count", None) {
        RxResponse::Failure(message) => {
            assert_eq!(message, "Unable to match signal - Unknown kind Count")
        }
        other => panic!("{:?}", other),
    }
}

#[test]
fn plain_datastore() {
    let mut bare = SQLiteDatastore::new("a.db");
    assert_eq!(bare.database_url(), "sqlite:a.db");
    assert_eq!(bare.max_connections(), 5);
    assert!(bare.execute_batch_insert("INSERT", vec![]).is_none());
    assert!(bare.clear().is_empty());
    assert!(bare.open(Ok(())).unwrap().is_empty());
    assert!(bare.clear().is_empty());
    assert!(bare.close());

    let mut store = SQLiteDatastore::new("./test-data/out/test.db")
        .with_create_tables("CREATE TABLE user (key TEXT);")
        .with_drop_tables("DROP TABLE user;")
        .with_pragmas("PRAGMA y;");
    assert!(store.open(Err("no".to_string())).is_err());
    assert!(store.clear().is_empty());
    assert_eq!(
        store.open(Ok(())).unwrap(),
        vec!["PRAGMA y;".to_string(), "CREATE TABLE user (key TEXT);".to_string()]
    );
    assert_eq!(store.clear(), vec!["DROP TABLE user;".to_string()]);
    let rows = vec![vec![Value::Null, Value::Bool(true)], vec![]];
    let plan = store.execute_batch_insert("INSERT INTO user VALUES (?, ?)", rows.clone()).unwrap();
    assert_eq!(plan.sql, "INSERT INTO user VALUES (?, ?)");
    assert_eq!(plan.rows, rows);
    assert!(store.close());
    assert!(!store.close());
    assert!(store.execute_batch_insert("INSERT", vec![]).is_none());
    let _ = StoreState::Closed;
}
