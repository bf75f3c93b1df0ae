//! The statements that the SQL backend hands to the database.
//!
//! Each namespace is one table of three columns: `key`, the primary key;
//! `value`, the stored text; and `updated_at`, which the database stamps.

use crate::value::Value;
use vstd::prelude::*;
use vstd::string::*;

verus! {

/// What is handed to the database: the text of a statement and the texts
/// bound to its placeholders, in order.
#[derive(Debug, Clone, PartialEq, Eq)]
pub struct Statement {
    pub sql: String,
    pub params: Vec<String>,
}

/// What a [`Statement`] is in contracts.
pub struct StatementView {
    pub sql: Seq<char>,
    pub params: Seq<Seq<char>>,
}

impl View for Statement {
    type V = StatementView;

    open spec fn view(&self) -> StatementView {
        StatementView { sql: self.sql@, params: self.params.deep_view() }
    }
}

/// The batch that creates the table of `table`, its index on `key` and the
/// trigger that stamps `updated_at` on every update, each only if it is not
/// there yet.
pub open spec fn create_table_text(table: Seq<char>) -> Seq<char> {
    "CREATE TABLE IF NOT EXISTS "@ + table
        + " (key TEXT PRIMARY KEY, value TEXT NOT NULL, updated_at TEXT DEFAULT (datetime('now', 'localtime')), UNIQUE(key)) STRICT; CREATE INDEX IF NOT EXISTS "@
        + table + "_key_idx ON "@ + table + " (key); CREATE TRIGGER IF NOT EXISTS "@ + table
        + "_update_trigger AFTER UPDATE ON "@ + table + " BEGIN UPDATE "@ + table
        + " SET updated_at = datetime('now', 'localtime') WHERE key = NEW.key; END;"@
}

/// The query for the text stored under the key bound to `?1`.
pub open spec fn select_value_text(table: Seq<char>) -> Seq<char> {
    "SELECT value FROM "@ + table + " WHERE key = ?1 LIMIT 1"@
}

/// The query for the key and the stored text of every row.
pub open spec fn select_all_text(table: Seq<char>) -> Seq<char> {
    "SELECT key, value FROM "@ + table
}

/// The statement that writes the text bound to `?2` under the key bound to
/// `?1`: a new row, or the row of that key with its text replaced.
pub open spec fn upsert_text(table: Seq<char>) -> Seq<char> {
    "INSERT INTO "@ + table
        + " (key, value) VALUES (?1, ?2) ON CONFLICT(key) DO UPDATE SET value = EXCLUDED.value"@
}

/// The statement that deletes the row of the key bound to `?1`.
pub open spec fn delete_text(table: Seq<char>) -> Seq<char> {
    "DELETE FROM "@ + table + " WHERE key = ?1"@
}

/// `count` placeholders, separated by commas.
pub open spec fn placeholders(count: nat) -> Seq<char>
    decreases count,
{
    if count == 0 {
        Seq::empty()
    } else if count == 1 {
        "?"@
    } else {
        placeholders((count - 1) as nat) + ",?"@
    }
}

/// The one statement that deletes the rows of `count` bound keys.
pub open spec fn delete_many_text(table: Seq<char>, count: nat) -> Seq<char> {
    "DELETE FROM "@ + table + " WHERE key IN ("@ + placeholders(count) + ")"@
}

/// The statement that deletes every row.
pub open spec fn delete_all_text(table: Seq<char>) -> Seq<char> {
    "DELETE FROM "@ + table
}

/// The batch that creates the table of `table` with its index and trigger.
/// It binds nothing.
pub fn create_table(table: &str) -> (statement: Statement)
    ensures
        statement@ == (StatementView { sql: create_table_text(table@), params: Seq::empty() }),
{
    let sql = String::from_str("CREATE TABLE IF NOT EXISTS ").concat(table).concat(
        " (key TEXT PRIMARY KEY, value TEXT NOT NULL, updated_at TEXT DEFAULT (datetime('now', 'localtime')), UNIQUE(key)) STRICT; CREATE INDEX IF NOT EXISTS ",
    ).concat(table).concat("_key_idx ON ").concat(table).concat(
        " (key); CREATE TRIGGER IF NOT EXISTS ",
    ).concat(table).concat("_update_trigger AFTER UPDATE ON ").concat(table).concat(
        " BEGIN UPDATE ",
    ).concat(table).concat(
        " SET updated_at = datetime('now', 'localtime') WHERE key = NEW.key; END;",
    );
    let statement = Statement { sql, params: Vec::new() };
    assert(statement.params.deep_view() =~= Seq::empty());
    statement
}

/// The query for the text stored under `key`.
pub fn select_value(table: &str, key: &str) -> (statement: Statement)
    ensures
        statement@ == (StatementView { sql: select_value_text(table@), params: seq![key@] }),
{
    let sql = String::from_str("SELECT value FROM ").concat(table).concat(
        " WHERE key = ?1 LIMIT 1",
    );
    let mut params: Vec<String> = Vec::new();
    params.push(String::from_str(key));
    let statement = Statement { sql, params };
    assert(statement.params.deep_view() =~= seq![key@]);
    statement
}

/// The query for every row. It binds nothing.
pub fn select_all(table: &str) -> (statement: Statement)
    ensures
        statement@ == (StatementView { sql: select_all_text(table@), params: Seq::empty() }),
{
    let sql = String::from_str("SELECT key, value FROM ").concat(table);
    let statement = Statement { sql, params: Vec::new() };
    assert(statement.params.deep_view() =~= Seq::empty());
    statement
}

/// The statement that writes `value` under `key`: it binds the key and the
/// text that the value is stored as.
pub fn upsert(table: &str, key: &str, value: &Value) -> (statement: Statement)
    ensures
        statement@ == (StatementView {
            sql: upsert_text(table@),
            params: seq![key@, value@.stored_text()],
        }),
{
    let sql = String::from_str("INSERT INTO ").concat(table).concat(
        " (key, value) VALUES (?1, ?2) ON CONFLICT(key) DO UPDATE SET value = EXCLUDED.value",
    );
    let mut params: Vec<String> = Vec::new();
    params.push(String::from_str(key));
    params.push(value.stored_text());
    let statement = Statement { sql, params };
    assert(statement.params.deep_view() =~= seq![key@, value@.stored_text()]);
    statement
}

/// The statement that deletes the row of `key`.
pub fn delete(table: &str, key: &str) -> (statement: Statement)
    ensures
        statement@ == (StatementView { sql: delete_text(table@), params: seq![key@] }),
{
    let sql = String::from_str("DELETE FROM ").concat(table).concat(" WHERE key = ?1");
    let mut params: Vec<String> = Vec::new();
    params.push(String::from_str(key));
    let statement = Statement { sql, params };
    assert(statement.params.deep_view() =~= seq![key@]);
    statement
}

/// The one statement that deletes the rows of all of `keys`: it has one
/// placeholder for each key and binds the keys in their order.
pub fn delete_many(table: &str, keys: &[&str]) -> (statement: Statement)
    ensures
        statement@ == (StatementView {
            sql: delete_many_text(table@, keys@.len()),
            params: keys.deep_view(),
        }),
{
    let mut marks = String::new();
    let mut params: Vec<String> = Vec::new();
    let mut i: usize = 0;
    while i < keys.len()
        invariant
            i <= keys.len(),
            marks@ == placeholders(i as nat),
            params.len() == i,
            forall|j: int| 0 <= j < i ==> (#[trigger] params[j])@ == keys[j]@,
        decreases keys.len() - i,
    {
        if i == 0 {
            marks.append("?");
            assert(marks@ =~= "?"@);
        } else {
            marks.append(",?");
        }
        params.push(String::from_str(keys[i]));
        i += 1;
    }
    let sql = String::from_str("DELETE FROM ").concat(table).concat(" WHERE key IN (").concat(
        marks.as_str(),
    ).concat(")");
    let statement = Statement { sql, params };
    assert(statement.params.deep_view() =~= keys.deep_view());
    statement
}

/// The statement that deletes every row. It binds nothing.
pub fn delete_all(table: &str) -> (statement: Statement)
    ensures
        statement@ == (StatementView { sql: delete_all_text(table@), params: Seq::empty() }),
{
    let sql = String::from_str("DELETE FROM ").concat(table);
    let statement = Statement { sql, params: Vec::new() };
    assert(statement.params.deep_view() =~= Seq::empty());
    statement
}

} // verus!
