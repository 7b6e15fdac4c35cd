//! The closed set of failures that the chainstate layer reports.

use vstd::prelude::*;
use crate::cause::{
    describe_serialization, describe_store, serialization_description, store_description, Cause,
};

verus! {

/// A failure of the chainstate layer. Exactly one kind is active in a value.
#[derive(Debug)]
pub enum ErrorKind {
    /// The store does not support the operation.
    NotImplemented,
    /// The database does not exist.
    NoDBError,
    /// The underlying store handle could not be established or used.
    ConnectionError,
    /// A mutating operation was attempted on a read-only connection.
    ReadOnly,
    /// A transaction was requested while one is active.
    TransactionInProgress,
    /// A transaction-scoped operation was requested with none active.
    NoTransaction,
    /// A value cannot be represented in the store's type system.
    TypeError,
    /// The serialization codec failed; its failure is kept as the cause.
    SerializationError(serde_json::Error),
    /// The relational engine failed; its failure is kept as the cause.
    StoreError(rusqlite::Error),
}

impl ErrorKind {
    /// Whether this error wraps an underlying failure.
    pub open spec fn is_wrapping(&self) -> bool {
        self is SerializationError || self is StoreError
    }

    /// Whether this error reports a misuse of the connection protocol rather
    /// than a fault of the store.
    pub open spec fn is_discipline_violation(&self) -> bool {
        self is ReadOnly || self is TransactionInProgress || self is NoTransaction
    }

    /// The wrapped failure, if there is one.
    pub open spec fn spec_cause(&self) -> Option<Cause<'_>> {
        match self {
            ErrorKind::SerializationError(e) => Some(Cause::Serialization(e)),
            ErrorKind::StoreError(e) => Some(Cause::Store(e)),
            _ => None,
        }
    }

    /// The short description: fixed for each kind that wraps nothing, the
    /// cause's own for the two that wrap.
    pub open spec fn description_text(&self) -> Seq<char> {
        match self {
            ErrorKind::NotImplemented => "Not implemented"@,
            ErrorKind::NoDBError => "Database does not exist"@,
            ErrorKind::ConnectionError => "Failed to connect to database"@,
            ErrorKind::ReadOnly => "Database is opened read-only"@,
            ErrorKind::TransactionInProgress => "Transaction already in progress"@,
            ErrorKind::NoTransaction => "No transaction active"@,
            ErrorKind::TypeError => "Invalid or unrepresentable database type"@,
            ErrorKind::SerializationError(e) => serialization_description(*e),
            ErrorKind::StoreError(e) => store_description(*e),
        }
    }

    /// Whether `text` is a rendering of this error: the fixed description
    /// where nothing is wrapped, else a rendering of the cause.
    pub open spec fn displays_as(&self, text: String) -> bool {
        match self.spec_cause() {
            Some(cause) => cause.displays_as(text),
            None => text@ == self.description_text(),
        }
    }

    /// The underlying failure, for callers that walk the chain of causes.
    #[verifier::when_used_as_spec(spec_cause)]
    pub fn cause(&self) -> (c: Option<Cause<'_>>)
        ensures
            c == self.spec_cause(),
    {
        match self {
            ErrorKind::NotImplemented => None,
            ErrorKind::NoDBError => None,
            ErrorKind::ConnectionError => None,
            ErrorKind::ReadOnly => None,
            ErrorKind::TransactionInProgress => None,
            ErrorKind::NoTransaction => None,
            ErrorKind::TypeError => None,
            ErrorKind::SerializationError(e) => Some(Cause::Serialization(e)),
            ErrorKind::StoreError(e) => Some(Cause::Store(e)),
        }
    }

    /// The short description of this error.
    pub fn description(&self) -> (s: &str)
        ensures
            s@ == self.description_text(),
    {
        match self {
            ErrorKind::NotImplemented => "Not implemented",
            ErrorKind::NoDBError => "Database does not exist",
            ErrorKind::ConnectionError => "Failed to connect to database",
            ErrorKind::ReadOnly => "Database is opened read-only",
            ErrorKind::TransactionInProgress => "Transaction already in progress",
            ErrorKind::NoTransaction => "No transaction active",
            ErrorKind::TypeError => "Invalid or unrepresentable database type",
            ErrorKind::SerializationError(e) => describe_serialization(e),
            ErrorKind::StoreError(e) => describe_store(e),
        }
    }

    /// Renders this error for logs and diagnostics.
    pub fn to_string(&self) -> (s: String)
        ensures
            self.displays_as(s),
    {
        match self.cause() {
            Some(cause) => cause.to_string(),
            None => self.description().to_owned(),
        }
    }
}

/// An error that wraps nothing has the fixed description of its kind, shows
/// as that description and reports no cause.
pub proof fn lemma_plain_error(e: ErrorKind, text: String)
    requires
        !e.is_wrapping(),
    ensures
        e.spec_cause() is None,
        e.displays_as(text) <==> text@ == e.description_text(),
        e is NotImplemented ==> e.description_text() == "Not implemented"@,
        e is NoDBError ==> e.description_text() == "Database does not exist"@,
        e is ConnectionError ==> e.description_text() == "Failed to connect to database"@,
        e is ReadOnly ==> e.description_text() == "Database is opened read-only"@,
        e is TransactionInProgress ==> e.description_text() == "Transaction already in progress"@,
        e is NoTransaction ==> e.description_text() == "No transaction active"@,
        e is TypeError ==> e.description_text() == "Invalid or unrepresentable database type"@,
{
}

/// An error that wraps a failure reports exactly that failure as its cause,
/// shows as the failure itself shows, and describes itself in the failure's
/// own words.
pub proof fn lemma_wrapping_error(e: ErrorKind, text: String)
    requires
        e.is_wrapping(),
    ensures
        e matches ErrorKind::SerializationError(inner) ==> e.spec_cause() == Some(
            Cause::Serialization(&inner),
        ),
        e matches ErrorKind::StoreError(inner) ==> e.spec_cause() == Some(Cause::Store(&inner)),
        e.spec_cause() matches Some(cause) && {
            &&& e.displays_as(text) <==> cause.displays_as(text)
            &&& e.description_text() == cause.description_text()
        },
{
}

} // verus!
