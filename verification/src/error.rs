//! Errors of the catalog, and how a failure of the store maps to them.

use crate::text::same_text;
use vstd::prelude::*;
use vstd::std_specs::convert::FromSpecImpl;

verus! {

/// Why an operation on the catalog failed.
///
/// `NotFound` and `ValidationError` come from the catalog's own rules. The
/// other three say that the store rejected or could not complete a read or a
/// write; [`DatabaseError::is_persistence`] tells the two groups apart.
#[derive(Debug, Clone, Copy, PartialEq, Eq, Structural)]
pub enum DatabaseError {
    /// A lookup by identifier, title or name matched nothing.
    NotFound,
    /// A filter or patch value lies outside the accepted domain.
    ValidationError,
    /// The store cancelled the statement because it ran too long.
    QueryTimeout,
    /// No connection to the store could be had.
    DatabaseConnectionError,
    /// Any other failure of the store.
    DatabaseError,
}

/// What the catalog reads from a failure reported by the store.
#[derive(Debug, Clone, PartialEq, Eq)]
pub enum StoreFailure {
    /// The database itself returned an error, with its SQLSTATE code if it
    /// sent one.
    Database { code: Option<String> },
    /// The connection pool was closed while a connection was waited for.
    PoolClosed,
    /// No connection became available in time.
    PoolTimedOut,
    /// A statement that must return a row returned none.
    RowNotFound,
    /// Anything else.
    Other,
}

/// The mathematical content of a [`StoreFailure`].
pub enum FailureView {
    Database { code: Option<Seq<char>> },
    PoolClosed,
    PoolTimedOut,
    RowNotFound,
    Other,
}

impl View for StoreFailure {
    type V = FailureView;

    open spec fn view(&self) -> FailureView {
        match *self {
            StoreFailure::Database { code } => FailureView::Database {
                code: match code {
                    Some(c) => Some(c@),
                    None => None,
                },
            },
            StoreFailure::PoolClosed => FailureView::PoolClosed,
            StoreFailure::PoolTimedOut => FailureView::PoolTimedOut,
            StoreFailure::RowNotFound => FailureView::RowNotFound,
            StoreFailure::Other => FailureView::Other,
        }
    }
}

/// The SQLSTATE code that PostgreSQL sends when it cancels a statement.
pub const QUERY_CANCELED: &'static str = "57014";

/// The outside error type of the store's driver.
#[verifier::external_type_specification]
#[verifier::external_body]
pub struct ExStoreError(sqlx::Error);

/// What a driver error holds of the things the catalog reads: its variant,
/// and for a database error its SQLSTATE code.
pub uninterp spec fn failure_in(error: sqlx::Error) -> FailureView;

/// Reads the variant of a `sqlx::Error`, and the code of a database error
/// through `DatabaseError::code`. Variants that the catalog does not tell
/// apart come out as `Other`.
#[verifier::external_body]
fn failure_of(error: &sqlx::Error) -> (failure: StoreFailure)
    ensures
        failure@ == failure_in(*error),
{
    match error {
        sqlx::Error::Database(e) => StoreFailure::Database {
            code: e.code().map(std::borrow::Cow::into_owned),
        },
        sqlx::Error::PoolClosed => StoreFailure::PoolClosed,
        sqlx::Error::PoolTimedOut => StoreFailure::PoolTimedOut,
        sqlx::Error::RowNotFound => StoreFailure::RowNotFound,
        _ => StoreFailure::Other,
    }
}

impl DatabaseError {
    /// The error that a failure of the store stands for.
    pub open spec fn of_failure(failure: FailureView) -> DatabaseError {
        match failure {
            FailureView::Database { code } => if code == Some(QUERY_CANCELED@) {
                DatabaseError::QueryTimeout
            } else {
                DatabaseError::DatabaseError
            },
            FailureView::PoolClosed => DatabaseError::DatabaseConnectionError,
            FailureView::PoolTimedOut => DatabaseError::DatabaseConnectionError,
            FailureView::RowNotFound => DatabaseError::NotFound,
            FailureView::Other => DatabaseError::DatabaseError,
        }
    }

    /// Whether the error reports that the store rejected or could not
    /// complete a read or a write.
    pub open spec fn persistence(self) -> bool {
        self == DatabaseError::QueryTimeout || self == DatabaseError::DatabaseConnectionError
            || self == DatabaseError::DatabaseError
    }

    /// Whether the error reports that the store rejected or could not
    /// complete a read or a write.
    pub fn is_persistence(&self) -> (yes: bool)
        ensures
            yes == self.persistence(),
    {
        match self {
            DatabaseError::NotFound => false,
            DatabaseError::ValidationError => false,
            _ => true,
        }
    }
}

impl From<StoreFailure> for DatabaseError {
    /// Maps a failure of the store to the catalog's error.
    fn from(failure: StoreFailure) -> (error: DatabaseError) {
        match failure {
            StoreFailure::Database { code } => match code {
                Some(c) => if same_text(c.as_str(), QUERY_CANCELED) {
                    DatabaseError::QueryTimeout
                } else {
                    DatabaseError::DatabaseError
                },
                None => DatabaseError::DatabaseError,
            },
            StoreFailure::PoolClosed => DatabaseError::DatabaseConnectionError,
            StoreFailure::PoolTimedOut => DatabaseError::DatabaseConnectionError,
            StoreFailure::RowNotFound => DatabaseError::NotFound,
            StoreFailure::Other => DatabaseError::DatabaseError,
        }
    }
}

impl FromSpecImpl<StoreFailure> for DatabaseError {
    open spec fn obeys_from_spec() -> bool {
        true
    }

    open spec fn from_spec(failure: StoreFailure) -> DatabaseError {
        DatabaseError::of_failure(failure@)
    }
}

impl From<sqlx::Error> for DatabaseError {
    /// Maps an error of the store's driver to the catalog's error.
    fn from(error: sqlx::Error) -> (mapped: DatabaseError) {
        let failure = failure_of(&error);
        let mapped: DatabaseError = DatabaseError::from(failure);
        mapped
    }
}

impl FromSpecImpl<sqlx::Error> for DatabaseError {
    open spec fn obeys_from_spec() -> bool {
        true
    }

    open spec fn from_spec(error: sqlx::Error) -> DatabaseError {
        DatabaseError::of_failure(failure_in(error))
    }
}

} // verus!
