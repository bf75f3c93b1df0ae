//! What holds of every namespace that a backend answers for.
//!
//! The laws are stated over [`Table`], the model that the contracts of
//! [`Store`](crate::store::Store) and of the facade speak of. They hold of a
//! backend whose `table` is `Some`, as that of
//! [`MemoryStore`](crate::memory::MemoryStore) is. The SQL backend has no
//! `table`: what its rows do is the database's affair, and the laws say
//! nothing of it.

use crate::store::{StoreModelView, Table};
use crate::number::is_number_text;
use crate::value::{lemma_stored_text_round_trip, ValueView};
use vstd::prelude::*;

verus! {

/// Reading a key after writing it gives what the text of the document
/// written is read back as. That is the document itself exactly where it is
/// null, a number, or a string that is neither empty nor a number literal;
/// the empty string comes back as null, a string that is a number literal as
/// that number, and a document of another shape as the string of its JSON
/// text.
pub proof fn lemma_get_after_set(table: Table, key: Seq<char>, value: ValueView)
    requires
        value.well_formed(),
    ensures
        table.set(key, value).get(key) == Some(
            ValueView::from_stored_text(value.stored_text()),
        ),
        table.set(key, value).get(key) == Some(value) <==> value.read_back(),
        value matches ValueView::String(text) ==> (text.len() == 0 ==> table.set(
            key,
            value,
        ).get(key) == Some(ValueView::Null)),
        value matches ValueView::String(text) ==> (is_number_text(text) ==> table.set(
            key,
            value,
        ).get(key) == Some(ValueView::Number(text))),
        value matches ValueView::Json(text) ==> table.set(key, value).get(key) == Some(
            ValueView::String(text),
        ),
{
    lemma_stored_text_round_trip(value);
}

/// Writing a key leaves every other key as it was.
pub proof fn lemma_set_keeps_other_keys(
    table: Table,
    key: Seq<char>,
    value: ValueView,
    other: Seq<char>,
)
    requires
        other != key,
    ensures
        table.set(key, value).get(other) == table.get(other),
{
}

/// Removing a key twice is removing it once, and removing a key that has no
/// row changes nothing. After either, the key reads as absent.
pub proof fn lemma_remove_idempotent(table: Table, key: Seq<char>)
    ensures
        table.remove(key).remove(key) == table.remove(key),
        !table.rows.contains_key(key) ==> table.remove(key) == table,
        table.remove(key).get(key) is None,
{
    assert(table.remove(key).remove(key).rows =~= table.remove(key).rows);
    if !table.rows.contains_key(key) {
        assert(table.remove(key).rows =~= table.rows);
    }
}

/// Writing a key twice is writing the second document once: the key reads as
/// what the second document is read back as, and any list of the namespace
/// holds exactly one entry for the key, with that document.
pub proof fn lemma_set_overwrites(
    table: Table,
    key: Seq<char>,
    first: ValueView,
    second: ValueView,
    entries: Seq<StoreModelView>,
)
    requires
        table.set(key, first).set(key, second).lists(entries),
    ensures
        table.set(key, first).set(key, second) == table.set(key, second),
        table.set(key, first).set(key, second).get(key) == Some(
            ValueView::from_stored_text(second.stored_text()),
        ),
        exists|i: int|
            {
                &&& 0 <= i < entries.len()
                &&& #[trigger] entries[i].key == key
                &&& entries[i].value == ValueView::from_stored_text(second.stored_text())
                &&& forall|j: int|
                    0 <= j < entries.len() && #[trigger] entries[j].key == key ==> j == i
            },
{
    let written = table.set(key, first).set(key, second);
    assert(written.rows =~= table.set(key, second).rows);
    assert(written.rows.contains_key(key));
    let i = choose|i: int| 0 <= i < entries.len() && #[trigger] entries[i].key == key;
    assert(written.get(entries[i].key) == Some(entries[i].value));
    assert forall|j: int| 0 <= j < entries.len() && #[trigger] entries[j].key == key implies j
        == i by {
        if j < i {
            assert(entries[j].key != entries[i].key);
        } else if i < j {
            assert(entries[i].key != entries[j].key);
        }
    }
}

/// After a clear every key reads as absent and every list of the namespace is
/// empty. The table stays created.
pub proof fn lemma_list_after_clear(table: Table, entries: Seq<StoreModelView>)
    requires
        table.clear().lists(entries),
    ensures
        entries.len() == 0,
        table.clear().created == table.created,
        forall|key: Seq<char>| table.clear().get(key) is None,
{
    if entries.len() > 0 {
        assert(table.clear().get(entries[0].key) == Some(entries[0].value));
    }
}

/// Removing no key changes nothing, and removing one key more is removing
/// that key from what the others left: removing many keys is removing them
/// one after another, in any order and however often a key is named.
pub proof fn lemma_remove_many_by_steps(table: Table, keys: Seq<Seq<char>>, key: Seq<char>)
    ensures
        table.remove_many(Seq::empty()) == table,
        table.remove_many(keys.push(key)) == table.remove_many(keys).remove(key),
        table.remove_many(seq![key]) == table.remove(key),
        forall|other: Seq<char>|
            table.remove_many(keys).get(other) == if keys.contains(other) {
                None
            } else {
                table.get(other)
            },
{
    assert(table.remove_many(Seq::empty()).rows =~= table.rows);
    assert(keys.push(key).to_set() =~= keys.to_set().insert(key)) by {
        keys.lemma_push_to_set_commute(key);
    }
    assert(table.remove_many(keys.push(key)).rows =~= table.remove_many(keys).remove(key).rows);
    assert(seq![key].to_set() =~= Set::<Seq<char>>::empty().insert(key)) by {
        assert(seq![key] =~= Seq::<Seq<char>>::empty().push(key));
        Seq::<Seq<char>>::empty().lemma_push_to_set_commute(key);
    }
    assert(table.remove_many(seq![key]).rows =~= table.remove(key).rows);
}

/// Initializing twice is initializing once, and initializing keeps every row.
pub proof fn lemma_initialize_idempotent(table: Table)
    ensures
        table.initialize().initialize() == table.initialize(),
        table.initialize().rows == table.rows,
        table.initialize().created,
{
}

/// A list of a namespace has as many entries as the namespace has rows.
pub proof fn lemma_list_counts_rows(table: Table, entries: Seq<StoreModelView>)
    requires
        table.lists(entries),
        table.rows.dom().finite(),
    ensures
        entries.len() == table.rows.dom().len(),
    decreases entries.len(),
{
    if entries.len() == 0 {
        assert(table.rows.dom() =~= Set::empty());
    } else {
        let last = entries.last();
        let rest = entries.drop_last();
        let smaller = table.remove(last.key);
        assert(table.get(entries[entries.len() - 1].key) == Some(last.value));
        assert forall|i: int| 0 <= i < rest.len() implies smaller.get(#[trigger] rest[i].key)
            == Some(rest[i].value) by {
            assert(rest[i] == entries[i]);
            assert(entries[i].key != entries[entries.len() - 1].key);
            assert(table.get(entries[i].key) == Some(entries[i].value));
        }
        assert forall|i: int, j: int| 0 <= i < j < rest.len() implies #[trigger] rest[i].key
            != #[trigger] rest[j].key by {
            assert(rest[i] == entries[i] && rest[j] == entries[j]);
        }
        assert forall|key: Seq<char>| #[trigger] smaller.rows.contains_key(key) implies exists|
            i: int,
        | 0 <= i < rest.len() && #[trigger] rest[i].key == key by {
            assert(table.rows.contains_key(key));
            let i = choose|i: int| 0 <= i < entries.len() && #[trigger] entries[i].key == key;
            assert(i < rest.len());
            assert(rest[i] == entries[i]);
        }
        lemma_list_counts_rows(smaller, rest);
        assert(smaller.rows.dom() =~= table.rows.dom().remove(last.key));
    }
}

} // verus!
