//! Documents and the text they are stored as.
//!
//! A document is stored as text, and not every shape in the same way: a
//! string and a number as they are, null as the empty text, any other shape
//! as its JSON text. Reading takes the text for what it looks like: the empty
//! text for null, a number literal for a number, any other text for a
//! string. So null, numbers and most strings come back as they went in; a
//! string that is empty or looks like a number comes back as null or as that
//! number, and a document of another shape comes back as the string of its
//! JSON text.

use crate::number::{is_number, is_number_text};
use vstd::prelude::*;

verus! {

/// A document handed to or returned by a store.
///
/// Only the shapes that the stored text depends on are told apart: a number
/// carries its literal, and every shape other than null, string and number
/// carries its JSON text.
#[derive(Clone, Debug, PartialEq, Eq)]
pub enum Value {
    Null,
    String(String),
    Number(String),
    Json(String),
}

/// What a [`Value`] is in contracts: the same shapes over sequences of
/// characters.
pub enum ValueView {
    Null,
    String(Seq<char>),
    Number(Seq<char>),
    Json(Seq<char>),
}

impl View for Value {
    type V = ValueView;

    open spec fn view(&self) -> ValueView {
        match self {
            Value::Null => ValueView::Null,
            Value::String(text) => ValueView::String(text@),
            Value::Number(literal) => ValueView::Number(literal@),
            Value::Json(text) => ValueView::Json(text@),
        }
    }
}

impl ValueView {
    /// Whether the document is what its shape says: a number holds a number
    /// literal, and a document of another shape holds a text that is neither
    /// empty nor a number literal. Only such a document can be stored.
    pub open spec fn well_formed(self) -> bool {
        match self {
            ValueView::Null => true,
            ValueView::String(_) => true,
            ValueView::Number(literal) => is_number_text(literal),
            ValueView::Json(text) => text.len() > 0 && !is_number_text(text),
        }
    }

    /// The text a document is stored as: a string and a number as they are,
    /// null as the empty text, any other shape as its JSON text.
    pub open spec fn stored_text(self) -> Seq<char> {
        match self {
            ValueView::Null => Seq::empty(),
            ValueView::String(text) => text,
            ValueView::Number(literal) => literal,
            ValueView::Json(text) => text,
        }
    }

    /// The document that stored text is read back as: null for the empty
    /// text, a number for a number literal, a string for any other text.
    pub open spec fn from_stored_text(text: Seq<char>) -> ValueView {
        if text.len() == 0 {
            ValueView::Null
        } else if is_number_text(text) {
            ValueView::Number(text)
        } else {
            ValueView::String(text)
        }
    }

    /// Whether the document is one that stored text is read back as.
    pub open spec fn read_back(self) -> bool {
        match self {
            ValueView::Null => true,
            ValueView::String(text) => text.len() > 0 && !is_number_text(text),
            ValueView::Number(literal) => is_number_text(literal),
            ValueView::Json(_) => false,
        }
    }
}

impl Value {
    /// Whether the document is what its shape says, so that it can be
    /// stored.
    pub fn is_well_formed(&self) -> (well_formed: bool)
        ensures
            well_formed == self@.well_formed(),
    {
        match self {
            Value::Null => true,
            Value::String(_) => true,
            Value::Number(literal) => is_number(literal.as_str()),
            Value::Json(text) => !text.as_str().is_empty() && !is_number(text.as_str()),
        }
    }

    /// The text this document is stored as.
    pub fn stored_text(&self) -> (text: String)
        ensures
            text@ == self@.stored_text(),
    {
        match self {
            Value::Null => String::new(),
            Value::String(text) => text.clone(),
            Value::Number(literal) => literal.clone(),
            Value::Json(text) => text.clone(),
        }
    }

    /// The document that stored text is read back as.
    pub fn from_stored_text(text: String) -> (value: Value)
        ensures
            value@ == ValueView::from_stored_text(text@),
            value@.read_back(),
    {
        if text.as_str().is_empty() {
            Value::Null
        } else if is_number(text.as_str()) {
            Value::Number(text)
        } else {
            Value::String(text)
        }
    }

    /// A copy of this document.
    pub fn duplicate(&self) -> (copy: Value)
        ensures
            copy@ == self@,
    {
        match self {
            Value::Null => Value::Null,
            Value::String(text) => Value::String(text.clone()),
            Value::Number(literal) => Value::Number(literal.clone()),
            Value::Json(text) => Value::Json(text.clone()),
        }
    }
}

/// A document that can be stored comes back from its stored text as itself
/// exactly where it is null, a number, or a string that is neither empty nor
/// a number literal. Of the others the empty string comes back as null, a
/// string that is a number literal as that number, and a document of another
/// shape as the string of its JSON text.
pub proof fn lemma_stored_text_round_trip(value: ValueView)
    requires
        value.well_formed(),
    ensures
        ValueView::from_stored_text(value.stored_text()) == value <==> value.read_back(),
        ValueView::from_stored_text(value.stored_text()).read_back(),
        value matches ValueView::String(text) ==> (text.len() == 0
            ==> ValueView::from_stored_text(value.stored_text()) == ValueView::Null),
        value matches ValueView::String(text) ==> (is_number_text(text)
            ==> ValueView::from_stored_text(value.stored_text()) == ValueView::Number(text)),
        value matches ValueView::Json(text) ==> ValueView::from_stored_text(value.stored_text())
            == ValueView::String(text),
{
    crate::number::lemma_number_is_not_empty(value.stored_text());
}

} // verus!
