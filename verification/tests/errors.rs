use localstore::{KeyvError, StoreError};

#[test]
fn store_error_messages() {
    assert_eq!(
        StoreError::ConnectionError("no file".to_string()).to_string(),
        "Failed to connect to the database backend: no file"
    );
    assert_eq!(
        StoreError::SerializationError { source: "eof".to_string() }.to_string(),
        "Error while serializing or deserializing data"
    );
    assert_eq!(
        StoreError::DatabaseError { source: "locked".to_string() }.to_string(),
        "Database operation failed"
    );
    assert_eq!(
        StoreError::QueryError("syntax".to_string()).to_string(),
        "Database query error: syntax"
    );
    assert_eq!(StoreError::NotFound.to_string(), "The requested key was not found");
    assert_eq!(StoreError::Unknown.to_string(), "An unknown error has occurred");
}

#[test]
fn query_error_joins_context_and_detail() {
    assert_eq!(
        StoreError::query("Failed to set the value", "no such table: cache"),
        StoreError::QueryError("Failed to set the value: no such table: cache".to_string())
    );
    assert_eq!(StoreError::query("", ""), StoreError::QueryError(": ".to_string()));
}

#[test]
fn keyv_error_wraps_the_store_error() {
    let wrapped = KeyvError::from(StoreError::NotFound);
    assert_eq!(wrapped, KeyvError::StoreError(StoreError::NotFound));
    assert_eq!(wrapped.to_string(), "Store error: The requested key was not found");
    assert_eq!(
        KeyvError::StoreError(StoreError::QueryError("x".to_string())).to_string(),
        "Store error: Database query error: x"
    );
}

#[test]
fn malformed_value_error() {
    assert_eq!(
        StoreError::malformed(),
        StoreError::SerializationError { source: "The value is not well formed".to_string() }
    );
}
