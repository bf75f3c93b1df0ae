use localstore::{KeyvStore, KeyvStoreBuilder, Store, StoreError, StoreModel, Value};
use std::sync::Arc;

fn text(s: &str) -> Value {
    Value::String(s.to_string())
}

fn number(s: &str) -> Value {
    Value::Number(s.to_string())
}

fn in_memory(table: &str) -> KeyvStore {
    let mut store = KeyvStoreBuilder::new().uri(":memory:").table_name(table).build().unwrap();
    store.initialize().unwrap();
    store
}

fn sorted(mut entries: Vec<StoreModel>) -> Vec<(String, Value)> {
    entries.sort_by(|a, b| a.key.cmp(&b.key));
    entries.into_iter().map(|entry| (entry.key, entry.value)).collect()
}

fn has_context(result: Result<(), StoreError>, context: &str) -> bool {
    match result {
        Err(StoreError::QueryError(message)) => message.starts_with(&format!("{}: ", context)),
        _ => false,
    }
}

#[test]
fn sql_builder_names_the_table() {
    let store = KeyvStoreBuilder::new().uri(":memory:").table_name("cache").build().unwrap();
    assert_eq!(store.get_table_name(), "cache");
    let store = KeyvStoreBuilder::new().uri(":memory:").build().unwrap();
    assert_eq!(store.get_table_name(), "localstore");
    assert_eq!(localstore::DEFAULT_NAMESPACE_NAME, "localstore");
}

#[test]
fn sql_builder_prefers_the_connection() {
    let connection = Arc::new(rusqlite::Connection::open_in_memory().unwrap());
    let mut first = KeyvStoreBuilder::new()
        .uri("/nonexistent-directory/of/no/database.db")
        .connnection(connection.clone())
        .table_name("shared")
        .build()
        .unwrap();
    first.initialize().unwrap();
    first.set("a", text("x"), None).unwrap();
    let second = KeyvStoreBuilder::new()
        .connnection(connection)
        .token("secret")
        .table_name("shared")
        .build()
        .unwrap();
    assert_eq!(second.get("a"), Ok(Some(text("x"))));
}

#[test]
fn sql_builder_fails_where_the_file_cannot_be_opened() {
    let built = KeyvStoreBuilder::new().uri("/nonexistent-directory/of/no/database.db").build();
    assert_eq!(
        built.err(),
        Some(StoreError::ConnectionError("Failed to create database connnection".to_string()))
    );
}

#[test]
fn sql_builder_fails_with_nothing_to_build_on() {
    let expected = StoreError::ConnectionError(
        "KeyvStore requires either a URI or an existing connnection to be set".to_string(),
    );
    assert_eq!(KeyvStoreBuilder::new().build().err(), Some(expected.clone()));
    let built = KeyvStoreBuilder::new().table_name("cache").token("secret").build();
    assert_eq!(built.err(), Some(expected));
}

#[test]
fn sql_operations_fail_before_initialize() {
    let mut store = KeyvStoreBuilder::new().uri(":memory:").table_name("t").build().unwrap();
    match store.get("a") {
        Err(StoreError::QueryError(message)) => {
            assert!(message.starts_with("Failed to fetch the value: "))
        }
        other => panic!("unexpected: {:?}", other),
    }
    match store.list() {
        Err(StoreError::QueryError(message)) => {
            assert!(message.starts_with("Failed to list the values: "))
        }
        other => panic!("unexpected: {:?}", other),
    }
    assert!(has_context(store.set("a", text("x"), None), "Failed to set the value"));
    assert!(has_context(store.remove("a"), "Failed to remove the key"));
    assert!(has_context(store.remove_many(&["a"]), "Failed to remove the keys"));
    assert_eq!(store.remove_many(&[]), Ok(()));
    assert!(has_context(store.clear(), "Failed to clear the table"));
    store.initialize().unwrap();
    assert_eq!(store.list(), Ok(vec![]));
}

#[test]
fn sql_initialize_reports_the_driver_message() {
    let mut store =
        KeyvStoreBuilder::new().uri(":memory:").table_name("not a name").build().unwrap();
    assert!(has_context(store.initialize(), "Failed to initialize the database table"));
}

#[test]
fn sql_set_then_get_per_shape() {
    let mut store = in_memory("shapes");
    store.set("s", text("life long"), None).unwrap();
    store.set("n", number("42"), None).unwrap();
    store.set("z", Value::Null, None).unwrap();
    store.set("j", Value::Json("[\"hola\",\"test\"]".to_string()), None).unwrap();
    assert_eq!(store.get("s"), Ok(Some(text("life long"))));
    assert_eq!(store.get("n"), Ok(Some(number("42"))));
    assert_eq!(store.get("z"), Ok(Some(Value::Null)));
    assert_eq!(store.get("j"), Ok(Some(text("[\"hola\",\"test\"]"))));
    assert_eq!(store.get("missing"), Ok(None));
    store.set("empty", text(""), None).unwrap();
    store.set("digits", text("42"), None).unwrap();
    assert_eq!(store.get("empty"), Ok(Some(Value::Null)));
    assert_eq!(store.get("digits"), Ok(Some(number("42"))));
}

#[test]
fn sql_remove_is_idempotent() {
    let mut store = in_memory("t");
    assert_eq!(store.remove("never"), Ok(()));
    store.set("a", text("x"), None).unwrap();
    store.set("b", text("y"), None).unwrap();
    assert_eq!(store.remove("a"), Ok(()));
    assert_eq!(store.remove("a"), Ok(()));
    assert_eq!(store.get("a"), Ok(None));
    assert_eq!(store.get("b"), Ok(Some(text("y"))));
}

#[test]
fn sql_set_twice_keeps_one_row() {
    let mut store = in_memory("t");
    store.set("k", number("1"), None).unwrap();
    store.set("other", text("o"), None).unwrap();
    store.set("k", text("two"), None).unwrap();
    assert_eq!(store.get("k"), Ok(Some(text("two"))));
    assert_eq!(
        sorted(store.list().unwrap()),
        vec![("k".to_string(), text("two")), ("other".to_string(), text("o"))]
    );
}

#[test]
fn sql_clear_then_list_is_empty() {
    let mut store = in_memory("t");
    assert_eq!(store.clear(), Ok(()));
    store.set("a", text("x"), None).unwrap();
    store.set("b", text("y"), None).unwrap();
    assert_eq!(store.clear(), Ok(()));
    assert_eq!(store.list(), Ok(vec![]));
    store.set("c", text("z"), None).unwrap();
    assert_eq!(store.get("c"), Ok(Some(text("z"))));
}

#[test]
fn sql_initialize_twice_keeps_rows() {
    let mut store = in_memory("t");
    store.set("a", text("x"), None).unwrap();
    assert_eq!(store.initialize(), Ok(()));
    assert_eq!(store.initialize(), Ok(()));
    assert_eq!(store.get("a"), Ok(Some(text("x"))));
    assert_eq!(store.list().unwrap().len(), 1);
}

#[test]
fn sql_remove_many_removes_exactly_the_keys() {
    let mut store = in_memory("t");
    for key in ["a", "b", "c", "d"] {
        store.set(key, text(key), None).unwrap();
    }
    assert_eq!(store.remove_many(&["b", "missing", "d", "b"]), Ok(()));
    assert_eq!(
        sorted(store.list().unwrap()),
        vec![("a".to_string(), text("a")), ("c".to_string(), text("c"))]
    );
    assert_eq!(store.remove_many(&[]), Ok(()));
    assert_eq!(store.list().unwrap().len(), 2);
}

#[test]
fn sql_ttl_does_not_expire_or_change_the_entry() {
    let mut store = in_memory("t");
    store.set("a", text("x"), Some(0)).unwrap();
    assert_eq!(store.get("a"), Ok(Some(text("x"))));
}

#[test]
fn sql_write_stamps_updated_at() {
    let connection = Arc::new(rusqlite::Connection::open_in_memory().unwrap());
    let mut store = KeyvStoreBuilder::new()
        .connnection(connection.clone())
        .table_name("stamped")
        .build()
        .unwrap();
    store.initialize().unwrap();
    store.set("a", text("x"), None).unwrap();
    store.set("a", text("y"), None).unwrap();
    let stamped: i64 = connection
        .query_row("SELECT count(*) FROM stamped WHERE updated_at IS NOT NULL", [], |row| {
            row.get(0)
        })
        .unwrap();
    assert_eq!(stamped, 1);
    let rows: i64 =
        connection.query_row("SELECT count(*) FROM stamped", [], |row| row.get(0)).unwrap();
    assert_eq!(rows, 1);
}

#[test]
fn sql_namespaces_of_one_connection_do_not_mix() {
    let connection = Arc::new(rusqlite::Connection::open_in_memory().unwrap());
    let mut left = KeyvStoreBuilder::new()
        .connnection(connection.clone())
        .table_name("left")
        .build()
        .unwrap();
    let mut right =
        KeyvStoreBuilder::new().connnection(connection).table_name("right").build().unwrap();
    left.initialize().unwrap();
    right.initialize().unwrap();
    left.set("a", text("x"), None).unwrap();
    assert_eq!(right.list(), Ok(vec![]));
    assert_eq!(right.get("a"), Ok(None));
    right.set("a", text("y"), None).unwrap();
    right.clear().unwrap();
    assert_eq!(left.get("a"), Ok(Some(text("x"))));
}

#[test]
fn sql_set_refuses_a_value_that_is_not_well_formed() {
    let malformed =
        StoreError::SerializationError { source: "The value is not well formed".to_string() };
    let mut store = in_memory("t");
    store.set("a", text("kept"), None).unwrap();
    assert_eq!(store.set("a", number("abc"), None), Err(malformed.clone()));
    assert_eq!(store.set("a", number(""), None), Err(malformed.clone()));
    assert_eq!(store.set("a", Value::Json("42".to_string()), None), Err(malformed.clone()));
    assert_eq!(store.set("a", Value::Json(String::new()), None), Err(malformed));
    assert_eq!(store.get("a"), Ok(Some(text("kept"))));
    assert_eq!(store.list().unwrap().len(), 1);
}

#[test]
fn sql_row_that_holds_no_text_is_a_serialization_error() {
    let connection = Arc::new(rusqlite::Connection::open_in_memory().unwrap());
    connection
        .execute_batch(
            "CREATE TABLE odd (key TEXT PRIMARY KEY, value BLOB);
             INSERT INTO odd (key, value) VALUES ('blob', x'00ff');
             INSERT INTO odd (key, value) VALUES ('none', NULL);
             INSERT INTO odd (key, value) VALUES ('text', 'fine');",
        )
        .unwrap();
    let store = KeyvStoreBuilder::new().connnection(connection).table_name("odd").build().unwrap();
    assert!(matches!(store.get("blob"), Err(StoreError::SerializationError { .. })));
    assert!(matches!(store.get("none"), Err(StoreError::SerializationError { .. })));
    assert_eq!(store.get("text"), Ok(Some(text("fine"))));
    assert!(matches!(store.list(), Err(StoreError::SerializationError { .. })));
}
