use vibing_storage::error::{DatabaseError, StoreFailure};

#[test]
fn cancelled_statement_is_a_timeout() {
    let failure = StoreFailure::Database { code: Some(String::from("57014")) };
    assert_eq!(DatabaseError::from(failure), DatabaseError::QueryTimeout);
}

#[test]
fn other_database_codes_are_plain_store_errors() {
    let failure = StoreFailure::Database { code: Some(String::from("23505")) };
    assert_eq!(DatabaseError::from(failure), DatabaseError::DatabaseError);
    let failure = StoreFailure::Database { code: None };
    assert_eq!(DatabaseError::from(failure), DatabaseError::DatabaseError);
}

#[test]
fn pool_failures_are_connection_errors() {
    assert_eq!(DatabaseError::from(StoreFailure::PoolClosed), DatabaseError::DatabaseConnectionError);
    assert_eq!(DatabaseError::from(StoreFailure::PoolTimedOut), DatabaseError::DatabaseConnectionError);
}

#[test]
fn missing_row_is_not_found() {
    assert_eq!(DatabaseError::from(StoreFailure::RowNotFound), DatabaseError::NotFound);
    assert_eq!(DatabaseError::from(sqlx::Error::RowNotFound), DatabaseError::NotFound);
}

#[test]
fn driver_errors_map_through_their_variant() {
    assert_eq!(DatabaseError::from(sqlx::Error::PoolClosed), DatabaseError::DatabaseConnectionError);
    assert_eq!(DatabaseError::from(sqlx::Error::PoolTimedOut), DatabaseError::DatabaseConnectionError);
    assert_eq!(DatabaseError::from(sqlx::Error::WorkerCrashed), DatabaseError::DatabaseError);
}

#[test]
fn persistence_errors_are_told_apart() {
    assert!(DatabaseError::QueryTimeout.is_persistence());
    assert!(DatabaseError::DatabaseConnectionError.is_persistence());
    assert!(DatabaseError::DatabaseError.is_persistence());
    assert!(!DatabaseError::NotFound.is_persistence());
    assert!(!DatabaseError::ValidationError.is_persistence());
}

#[derive(Debug)]
struct Reported {
    code: Option<&'static str>,
}

impl std::fmt::Display for Reported {
    fn fmt(&self, f: &mut std::fmt::Formatter<'_>) -> std::fmt::Result {
        f.write_str("reported by the database")
    }
}

impl std::error::Error for Reported {}

impl sqlx::error::DatabaseError for Reported {
    fn message(&self) -> &str {
        "reported by the database"
    }

    fn code(&self) -> Option<std::borrow::Cow<'_, str>> {
        self.code.map(std::borrow::Cow::Borrowed)
    }

    fn as_error(&self) -> &(dyn std::error::Error + Send + Sync + 'static) {
        self
    }

    fn as_error_mut(&mut self) -> &mut (dyn std::error::Error + Send + Sync + 'static) {
        self
    }

    fn into_error(self: Box<Self>) -> Box<dyn std::error::Error + Send + Sync + 'static> {
        self
    }

    fn kind(&self) -> sqlx::error::ErrorKind {
        sqlx::error::ErrorKind::Other
    }
}

#[test]
fn a_cancelled_statement_reported_by_the_driver_is_a_timeout() {
    let error = sqlx::Error::Database(Box::new(Reported { code: Some("57014") }));
    assert_eq!(DatabaseError::from(error), DatabaseError::QueryTimeout);
}

#[test]
fn other_codes_reported_by_the_driver_are_plain_store_errors() {
    let error = sqlx::Error::Database(Box::new(Reported { code: Some("23503") }));
    assert_eq!(DatabaseError::from(error), DatabaseError::DatabaseError);
    let error = sqlx::Error::Database(Box::new(Reported { code: None }));
    assert_eq!(DatabaseError::from(error), DatabaseError::DatabaseError);
    let error = sqlx::Error::Protocol(String::from("57014"));
    assert_eq!(DatabaseError::from(error), DatabaseError::DatabaseError);
}
