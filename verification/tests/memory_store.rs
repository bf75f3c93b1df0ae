use localstore::{MemoryStore, Store, StoreError, StoreModel, Value};

fn text(s: &str) -> Value {
    Value::String(s.to_string())
}

fn number(s: &str) -> Value {
    Value::Number(s.to_string())
}

fn ready() -> MemoryStore {
    let mut store = MemoryStore::new();
    store.initialize().unwrap();
    store
}

fn sorted(mut entries: Vec<StoreModel>) -> Vec<(String, Value)> {
    entries.sort_by(|a, b| a.key.cmp(&b.key));
    entries.into_iter().map(|entry| (entry.key, entry.value)).collect()
}

#[test]
fn memory_operations_fail_before_initialize() {
    let mut store = MemoryStore::new();
    assert_eq!(
        store.set("a", number("abc"), None),
        Err(StoreError::SerializationError { source: "The value is not well formed".to_string() })
    );
    assert!(matches!(store.get("a"), Err(StoreError::QueryError(_))));
    assert!(matches!(store.list(), Err(StoreError::QueryError(_))));
    assert!(matches!(store.set("a", text("x"), None), Err(StoreError::QueryError(_))));
    assert!(matches!(store.remove("a"), Err(StoreError::QueryError(_))));
    assert!(matches!(store.remove_many(&["a"]), Err(StoreError::QueryError(_))));
    assert_eq!(store.remove_many(&[]), Ok(()));
    assert!(matches!(store.clear(), Err(StoreError::QueryError(_))));
    store.initialize().unwrap();
    assert_eq!(store.list(), Ok(vec![]));
}

#[test]
fn memory_set_then_get_per_shape() {
    let mut store = ready();
    store.set("s", text("life long"), None).unwrap();
    store.set("n", number("42"), None).unwrap();
    store.set("z", Value::Null, None).unwrap();
    store.set("j", Value::Json("[\"hola\",\"test\"]".to_string()), None).unwrap();
    assert_eq!(store.get("s"), Ok(Some(text("life long"))));
    assert_eq!(store.get("n"), Ok(Some(number("42"))));
    assert_eq!(store.get("z"), Ok(Some(Value::Null)));
    assert_eq!(store.get("j"), Ok(Some(text("[\"hola\",\"test\"]"))));
    assert_eq!(store.get("missing"), Ok(None));
    store.set("empty", text(""), None).unwrap();
    store.set("digits", text("42"), None).unwrap();
    assert_eq!(store.get("empty"), Ok(Some(Value::Null)));
    assert_eq!(store.get("digits"), Ok(Some(number("42"))));
}

#[test]
fn memory_remove_is_idempotent() {
    let mut store = ready();
    assert_eq!(store.remove("never"), Ok(()));
    store.set("a", text("x"), None).unwrap();
    store.set("b", text("y"), None).unwrap();
    assert_eq!(store.remove("a"), Ok(()));
    assert_eq!(store.remove("a"), Ok(()));
    assert_eq!(store.get("a"), Ok(None));
    assert_eq!(store.get("b"), Ok(Some(text("y"))));
}

#[test]
fn memory_set_twice_keeps_one_row() {
    let mut store = ready();
    store.set("k", number("1"), None).unwrap();
    store.set("other", text("o"), None).unwrap();
    store.set("k", text("two"), None).unwrap();
    assert_eq!(store.get("k"), Ok(Some(text("two"))));
    assert_eq!(
        sorted(store.list().unwrap()),
        vec![("k".to_string(), text("two")), ("other".to_string(), text("o"))]
    );
}

#[test]
fn memory_clear_then_list_is_empty() {
    let mut store = ready();
    assert_eq!(store.clear(), Ok(()));
    store.set("a", text("x"), None).unwrap();
    store.set("b", text("y"), None).unwrap();
    assert_eq!(store.clear(), Ok(()));
    assert_eq!(store.list(), Ok(vec![]));
    assert_eq!(store.get("a"), Ok(None));
    store.set("c", text("z"), None).unwrap();
    assert_eq!(store.get("c"), Ok(Some(text("z"))));
}

#[test]
fn memory_initialize_twice_keeps_rows() {
    let mut store = ready();
    store.set("a", text("x"), None).unwrap();
    assert_eq!(store.initialize(), Ok(()));
    assert_eq!(store.initialize(), Ok(()));
    assert_eq!(store.get("a"), Ok(Some(text("x"))));
    assert_eq!(store.list().unwrap().len(), 1);
}

#[test]
fn memory_remove_many_removes_exactly_the_keys() {
    let mut store = ready();
    for key in ["a", "b", "c", "d"] {
        store.set(key, text(key), None).unwrap();
    }
    assert_eq!(store.remove_many(&["b", "missing", "d", "b"]), Ok(()));
    assert_eq!(
        sorted(store.list().unwrap()),
        vec![("a".to_string(), text("a")), ("c".to_string(), text("c"))]
    );
    assert_eq!(store.remove_many(&[]), Ok(()));
    assert_eq!(store.list().unwrap().len(), 2);
}

#[test]
fn memory_ttl_does_not_expire_or_change_the_entry() {
    let mut store = ready();
    store.set("a", text("x"), Some(0)).unwrap();
    store.set("b", text("y"), Some(3600)).unwrap();
    assert_eq!(store.get("a"), Ok(Some(text("x"))));
    assert_eq!(store.get("b"), Ok(Some(text("y"))));
}

#[test]
fn memory_keys_are_exact_texts() {
    let mut store = ready();
    store.set("", text("empty"), None).unwrap();
    store.set("a", text("lower"), None).unwrap();
    store.set("A", text("upper"), None).unwrap();
    store.set("a ", text("space"), None).unwrap();
    assert_eq!(store.get(""), Ok(Some(text("empty"))));
    assert_eq!(store.get("a"), Ok(Some(text("lower"))));
    assert_eq!(store.get("A"), Ok(Some(text("upper"))));
    assert_eq!(store.get("a "), Ok(Some(text("space"))));
    assert_eq!(store.list().unwrap().len(), 4);
}

#[test]
fn memory_set_refuses_a_value_that_is_not_well_formed() {
    let malformed =
        StoreError::SerializationError { source: "The value is not well formed".to_string() };
    let mut store = ready();
    store.set("a", text("kept"), None).unwrap();
    assert_eq!(store.set("a", number("abc"), None), Err(malformed.clone()));
    assert_eq!(store.set("a", number(""), None), Err(malformed.clone()));
    assert_eq!(store.set("a", Value::Json("42".to_string()), None), Err(malformed.clone()));
    assert_eq!(store.set("a", Value::Json(String::new()), None), Err(malformed));
    assert_eq!(store.get("a"), Ok(Some(text("kept"))));
    assert_eq!(store.list().unwrap().len(), 1);
}
