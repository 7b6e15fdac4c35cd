use chainstate_db::{Cause, ErrorKind};

fn json_failure(input: &str) -> serde_json::Error {
    match serde_json::from_str::<serde_json::Value>(input) {
        Ok(_) => panic!("input parsed"),
        Err(e) => e,
    }
}

#[allow(deprecated)]
fn own_description<E: std::error::Error>(e: &E) -> String {
    e.description().to_string()
}

#[test]
fn description_of_not_implemented() {
    assert_eq!(ErrorKind::NotImplemented.description(), "Not implemented");
}

#[test]
fn description_of_no_db_error() {
    assert_eq!(ErrorKind::NoDBError.description(), "Database does not exist");
}

#[test]
fn description_of_connection_error() {
    assert_eq!(ErrorKind::ConnectionError.description(), "Failed to connect to database");
}

#[test]
fn description_of_read_only() {
    assert_eq!(ErrorKind::ReadOnly.description(), "Database is opened read-only");
}

#[test]
fn description_of_transaction_in_progress() {
    assert_eq!(
        ErrorKind::TransactionInProgress.description(),
        "Transaction already in progress"
    );
}

#[test]
fn description_of_no_transaction() {
    assert_eq!(ErrorKind::NoTransaction.description(), "No transaction active");
}

#[test]
fn description_of_type_error() {
    assert_eq!(
        ErrorKind::TypeError.description(),
        "Invalid or unrepresentable database type"
    );
}

#[test]
fn plain_kinds_display_their_description() {
    let kinds = vec![
        ErrorKind::NotImplemented,
        ErrorKind::NoDBError,
        ErrorKind::ConnectionError,
        ErrorKind::ReadOnly,
        ErrorKind::TransactionInProgress,
        ErrorKind::NoTransaction,
        ErrorKind::TypeError,
    ];
    for kind in kinds.iter() {
        assert_eq!(kind.to_string(), kind.description());
    }
    assert_eq!(ErrorKind::NoDBError.to_string(), "Database does not exist");
    assert_eq!(ErrorKind::ReadOnly.to_string(), "Database is opened read-only");
}

#[test]
fn plain_kinds_have_no_cause() {
    assert!(ErrorKind::NotImplemented.cause().is_none());
    assert!(ErrorKind::NoDBError.cause().is_none());
    assert!(ErrorKind::ConnectionError.cause().is_none());
    assert!(ErrorKind::ReadOnly.cause().is_none());
    assert!(ErrorKind::TransactionInProgress.cause().is_none());
    assert!(ErrorKind::NoTransaction.cause().is_none());
    assert!(ErrorKind::TypeError.cause().is_none());
}

#[test]
fn serialization_error_displays_as_its_cause() {
    let wrapped = ErrorKind::SerializationError(json_failure("{"));
    let twin = json_failure("{");
    assert_eq!(wrapped.to_string(), twin.to_string());
    assert_eq!(
        wrapped.to_string(),
        "EOF while parsing an object at line 1 column 1"
    );
}

#[test]
fn serialization_error_keeps_its_cause() {
    let wrapped = ErrorKind::SerializationError(json_failure("[1, 2"));
    match wrapped.cause() {
        Some(Cause::Serialization(inner)) => {
            assert!(inner.is_eof());
            assert_eq!(inner.line(), 1);
            assert_eq!(inner.column(), 5);
            assert_eq!(inner.to_string(), json_failure("[1, 2").to_string());
        }
        _ => panic!("the cause was dropped"),
    }
}

#[test]
fn serialization_error_describes_as_its_cause() {
    let wrapped = ErrorKind::SerializationError(json_failure("nul"));
    assert_eq!(wrapped.description(), own_description(&json_failure("nul")));
}

#[test]
fn store_error_displays_as_its_cause() {
    let wrapped = ErrorKind::StoreError(rusqlite::Error::QueryReturnedNoRows);
    assert_eq!(wrapped.to_string(), "Query returned no rows");
    let indexed = ErrorKind::StoreError(rusqlite::Error::InvalidColumnIndex(7));
    assert_eq!(indexed.to_string(), rusqlite::Error::InvalidColumnIndex(7).to_string());
    assert_eq!(indexed.to_string(), "Invalid column index: 7");
}

#[test]
fn store_error_keeps_its_cause() {
    let wrapped = ErrorKind::StoreError(rusqlite::Error::InvalidParameterName(
        String::from(":height"),
    ));
    match wrapped.cause() {
        Some(Cause::Store(inner)) => {
            assert_eq!(
                *inner,
                rusqlite::Error::InvalidParameterName(String::from(":height"))
            );
        }
        _ => panic!("the cause was dropped"),
    }
}

#[test]
fn store_error_describes_as_its_cause() {
    let wrapped = ErrorKind::StoreError(rusqlite::Error::InvalidQuery);
    assert_eq!(
        wrapped.description(),
        own_description(&rusqlite::Error::InvalidQuery)
    );
}

#[test]
fn cause_renders_and_describes_the_failure_itself() {
    let failure = rusqlite::Error::StatementChangedRows(3);
    let cause = Cause::Store(&failure);
    assert_eq!(cause.to_string(), "Query changed 3 rows");
    assert_eq!(cause.description(), own_description(&failure));

    let failure = json_failure("[");
    let cause = Cause::Serialization(&failure);
    assert_eq!(cause.to_string(), "EOF while parsing a list at line 1 column 1");
    assert_eq!(cause.description(), own_description(&failure));
}

#[test]
fn error_shows_exactly_what_its_cause_shows() {
    let wrapped = ErrorKind::StoreError(rusqlite::Error::InvalidParameterCount(1, 2));
    match wrapped.cause() {
        Some(cause) => {
            assert_eq!(wrapped.to_string(), cause.to_string());
            assert_eq!(wrapped.description(), cause.description());
        }
        None => panic!("the cause was dropped"),
    }
    assert_eq!(
        wrapped.to_string(),
        "Wrong number of parameters passed to query. Got 1, needed 2"
    );
}
