//! The errors that stores and the facade return.

use vstd::prelude::*;
use vstd::std_specs::convert::FromSpecImpl;
use vstd::string::*;

verus! {

/// Why a store operation failed.
#[derive(Debug, Clone, PartialEq, Eq)]
pub enum StoreError {
    /// The database could not be opened or reached.
    ConnectionError(String),
    /// A value could not be turned into or read back from its stored form.
    SerializationError { source: String },
    /// The database refused an operation on its schema.
    DatabaseError { source: String },
    /// A statement could not be prepared or run.
    QueryError(String),
    /// A key that had to exist did not.
    NotFound,
    /// None of the above.
    Unknown,
}

/// What a [`StoreError`] is in contracts.
pub enum StoreErrorView {
    ConnectionError(Seq<char>),
    SerializationError { source: Seq<char> },
    DatabaseError { source: Seq<char> },
    QueryError(Seq<char>),
    NotFound,
    Unknown,
}

impl View for StoreError {
    type V = StoreErrorView;

    open spec fn view(&self) -> StoreErrorView {
        match self {
            StoreError::ConnectionError(detail) => StoreErrorView::ConnectionError(detail@),
            StoreError::SerializationError { source } => StoreErrorView::SerializationError {
                source: source@,
            },
            StoreError::DatabaseError { source } => StoreErrorView::DatabaseError {
                source: source@,
            },
            StoreError::QueryError(detail) => StoreErrorView::QueryError(detail@),
            StoreError::NotFound => StoreErrorView::NotFound,
            StoreError::Unknown => StoreErrorView::Unknown,
        }
    }
}

impl StoreErrorView {
    /// The message of an error.
    pub open spec fn message(self) -> Seq<char> {
        match self {
            StoreErrorView::ConnectionError(detail) => {
                "Failed to connect to the database backend: "@ + detail
            },
            StoreErrorView::SerializationError { .. } => {
                "Error while serializing or deserializing data"@
            },
            StoreErrorView::DatabaseError { .. } => "Database operation failed"@,
            StoreErrorView::QueryError(detail) => "Database query error: "@ + detail,
            StoreErrorView::NotFound => "The requested key was not found"@,
            StoreErrorView::Unknown => "An unknown error has occurred"@,
        }
    }

    /// The query error that names what was attempted and what the driver
    /// answered.
    pub open spec fn query(context: Seq<char>, detail: Seq<char>) -> StoreErrorView {
        StoreErrorView::QueryError(context + ": "@ + detail)
    }

    /// The error of a value that cannot be stored because it does not hold
    /// what its shape says.
    pub open spec fn malformed() -> StoreErrorView {
        StoreErrorView::SerializationError { source: "The value is not well formed"@ }
    }

    /// The error of a read for what the driver answered: a row that does not
    /// hold text is a serialization error, anything else the query error of
    /// `context`.
    pub open spec fn read(context: Seq<char>, unreadable: bool, detail: Seq<char>) -> StoreErrorView {
        if unreadable {
            StoreErrorView::SerializationError { source: detail }
        } else {
            StoreErrorView::query(context, detail)
        }
    }

    /// Whether this is an error of a read: a serialization error or the query
    /// error of `context`, whatever the driver answered.
    pub open spec fn is_read(self, context: Seq<char>) -> bool {
        self is SerializationError || self.is_query(context)
    }

    /// Whether this is the query error of `context`, whatever the driver
    /// answered.
    pub open spec fn is_query(self, context: Seq<char>) -> bool {
        exists|detail: Seq<char>| self == #[trigger] StoreErrorView::query(context, detail)
    }
}

impl StoreError {
    /// The message of this error.
    pub fn to_string(&self) -> (message: String)
        ensures
            message@ == self@.message(),
    {
        match self {
            StoreError::ConnectionError(detail) => {
                String::from_str("Failed to connect to the database backend: ").concat(
                    detail.as_str(),
                )
            },
            StoreError::SerializationError { .. } => {
                String::from_str("Error while serializing or deserializing data")
            },
            StoreError::DatabaseError { .. } => String::from_str("Database operation failed"),
            StoreError::QueryError(detail) => {
                String::from_str("Database query error: ").concat(detail.as_str())
            },
            StoreError::NotFound => String::from_str("The requested key was not found"),
            StoreError::Unknown => String::from_str("An unknown error has occurred"),
        }
    }

    /// The error of a value that cannot be stored because it does not hold
    /// what its shape says.
    pub fn malformed() -> (error: StoreError)
        ensures
            error@ == StoreErrorView::malformed(),
    {
        StoreError::SerializationError { source: String::from_str("The value is not well formed") }
    }

    /// The query error that names what was attempted and what the driver
    /// answered.
    pub fn query(context: &str, detail: &str) -> (error: StoreError)
        ensures
            error@ == StoreErrorView::query(context@, detail@),
    {
        StoreError::QueryError(String::from_str(context).concat(": ").concat(detail))
    }
}

/// Why a facade operation failed.
#[derive(Debug, Clone, PartialEq, Eq)]
pub enum KeyvError {
    /// The backend failed.
    StoreError(StoreError),
}

/// What a [`KeyvError`] is in contracts.
pub enum KeyvErrorView {
    StoreError(StoreErrorView),
}

impl View for KeyvError {
    type V = KeyvErrorView;

    open spec fn view(&self) -> KeyvErrorView {
        match self {
            KeyvError::StoreError(error) => KeyvErrorView::StoreError(error@),
        }
    }
}

impl KeyvErrorView {
    /// The message of an error.
    pub open spec fn message(self) -> Seq<char> {
        match self {
            KeyvErrorView::StoreError(error) => "Store error: "@ + error.message(),
        }
    }
}

impl KeyvError {
    /// The message of this error.
    pub fn to_string(&self) -> (message: String)
        ensures
            message@ == self@.message(),
    {
        match self {
            KeyvError::StoreError(error) => {
                let inner = error.to_string();
                String::from_str("Store error: ").concat(inner.as_str())
            },
        }
    }
}

impl From<StoreError> for KeyvError {
    fn from(error: StoreError) -> (wrapped: KeyvError) {
        KeyvError::StoreError(error)
    }
}

impl FromSpecImpl<StoreError> for KeyvError {
    open spec fn obeys_from_spec() -> bool {
        true
    }

    open spec fn from_spec(error: StoreError) -> KeyvError {
        KeyvError::StoreError(error)
    }
}

} // verus!
