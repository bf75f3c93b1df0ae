use localstore::sql::{
    create_table, delete, delete_all, delete_many, select_all, select_value, upsert, Statement,
};
use localstore::Value;

fn statement(sql: &str, params: &[&str]) -> Statement {
    Statement { sql: sql.to_string(), params: params.iter().map(|p| p.to_string()).collect() }
}

#[test]
fn create_table_statement() {
    assert_eq!(
        create_table("cache"),
        statement(
            "CREATE TABLE IF NOT EXISTS cache (key TEXT PRIMARY KEY, value TEXT NOT NULL, updated_at TEXT DEFAULT (datetime('now', 'localtime')), UNIQUE(key)) STRICT; CREATE INDEX IF NOT EXISTS cache_key_idx ON cache (key); CREATE TRIGGER IF NOT EXISTS cache_update_trigger AFTER UPDATE ON cache BEGIN UPDATE cache SET updated_at = datetime('now', 'localtime') WHERE key = NEW.key; END;",
            &[]
        )
    );
}

#[test]
fn select_statements() {
    assert_eq!(
        select_value("cache", "a"),
        statement("SELECT value FROM cache WHERE key = ?1 LIMIT 1", &["a"])
    );
    assert_eq!(select_all("cache"), statement("SELECT key, value FROM cache", &[]));
}

#[test]
fn upsert_statement_binds_key_and_stored_text() {
    let sql = "INSERT INTO localstore (key, value) VALUES (?1, ?2) ON CONFLICT(key) DO UPDATE SET value = EXCLUDED.value";
    assert_eq!(
        upsert("localstore", "a", &Value::Number("42".to_string())),
        statement(sql, &["a", "42"])
    );
    assert_eq!(
        upsert("localstore", "a", &Value::String("x".to_string())),
        statement(sql, &["a", "x"])
    );
    assert_eq!(upsert("localstore", "a", &Value::Null), statement(sql, &["a", ""]));
    assert_eq!(
        upsert("localstore", "", &Value::Json("{\"a\":[1,2]}".to_string())),
        statement(sql, &["", "{\"a\":[1,2]}"])
    );
}

#[test]
fn delete_statements() {
    assert_eq!(delete("cache", "a"), statement("DELETE FROM cache WHERE key = ?1", &["a"]));
    assert_eq!(delete_all("cache"), statement("DELETE FROM cache", &[]));
}

#[test]
fn delete_many_statement_has_one_placeholder_per_key() {
    assert_eq!(delete_many("cache", &[]), statement("DELETE FROM cache WHERE key IN ()", &[]));
    assert_eq!(
        delete_many("cache", &["a"]),
        statement("DELETE FROM cache WHERE key IN (?)", &["a"])
    );
    assert_eq!(
        delete_many("cache", &["a", "b"]),
        statement("DELETE FROM cache WHERE key IN (?,?)", &["a", "b"])
    );
    assert_eq!(
        delete_many("cache", &["e", "d", "c", "b", "a"]),
        statement("DELETE FROM cache WHERE key IN (?,?,?,?,?)", &["e", "d", "c", "b", "a"])
    );
}

#[test]
fn statements_take_the_table_name_as_it_is() {
    assert_eq!(delete_all(""), statement("DELETE FROM ", &[]));
    assert_eq!(select_all("my table"), statement("SELECT key, value FROM my table", &[]));
}
