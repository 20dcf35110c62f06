use erp::error::{map_err, not_found, validation_error, DatabaseError, DbErrorKind, Error, ErrorResponse};

fn db(kind: DbErrorKind) -> DatabaseError {
    DatabaseError { kind, text: "driver says no".to_string() }
}

fn response(e: Error, debug: bool) -> (String, String, Option<String>) {
    let r = ErrorResponse::from_error(e, debug);
    (r.code, r.message, r.details)
}

#[test]
fn database_responses() {
    let cases = vec![
        (DbErrorKind::RowNotFound, "Record not found"),
        (DbErrorKind::Database, "Database error"),
        (DbErrorKind::ColumnNotFound("balance".to_string()), "Column not found: balance"),
        (DbErrorKind::PoolClosed, "Database connection pool closed"),
        (DbErrorKind::PoolTimedOut, "Database connection timeout"),
        (DbErrorKind::Other, "Database error occurred"),
    ];
    for (kind, message) in cases {
        let r = ErrorResponse::from_database(db(kind), true);
        assert_eq!(r.code, "DATABASE_ERROR");
        assert_eq!(r.message, message);
        assert_eq!(r.details.as_deref(), Some("driver says no"));
    }
    let r = ErrorResponse::from_database(db(DbErrorKind::PoolClosed), false);
    assert_eq!(r.details, None);
}

#[test]
fn responses_for_each_error() {
    let s = |t: &str| t.to_string();
    assert_eq!(
        response(Error::Database(db(DbErrorKind::RowNotFound)), false),
        (s("DATABASE_ERROR"), s("Record not found"), None)
    );
    assert_eq!(
        response(Error::Io(s("disk full")), true),
        (s("IO_ERROR"), s("A file system error occurred"), Some(s("disk full")))
    );
    assert_eq!(
        response(Error::Io(s("disk full")), false),
        (s("IO_ERROR"), s("A file system error occurred"), None)
    );
    assert_eq!(
        response(Error::Config(s("bad")), false),
        (s("CONFIG_ERROR"), s("A configuration error occurred"), Some(s("bad")))
    );
    assert_eq!(
        response(Error::Auth(s("who")), false),
        (s("AUTH_ERROR"), s("An authentication error occurred"), Some(s("who")))
    );
    assert_eq!(
        response(Error::Validation(s("v")), false),
        (s("VALIDATION_ERROR"), s("A validation error occurred"), Some(s("v")))
    );
    assert_eq!(
        response(Error::NotFound(s("n")), false),
        (s("NOT_FOUND"), s("Resource not found"), Some(s("n")))
    );
    assert_eq!(
        response(Error::Conflict(s("c")), false),
        (s("CONFLICT_ERROR"), s("A conflict occurred"), Some(s("c")))
    );
    assert_eq!(
        response(Error::ExternalService(s("x")), false),
        (s("EXTERNAL_SERVICE_ERROR"), s("An external service error occurred"), Some(s("x")))
    );
    assert_eq!(
        response(Error::Serialization(s("json")), true),
        (s("SERIALIZATION_ERROR"), s("A data serialization error occurred"), Some(s("json")))
    );
    assert_eq!(
        response(Error::Serialization(s("json")), false),
        (s("SERIALIZATION_ERROR"), s("A data serialization error occurred"), None)
    );
    assert_eq!(
        response(Error::Migration(s("m")), false),
        (s("MIGRATION_ERROR"), s("A database migration error occurred"), Some(s("m")))
    );
    assert_eq!(
        response(Error::Unknown(s("u")), true),
        (s("UNKNOWN_ERROR"), s("An unknown error occurred"), Some(s("u")))
    );
    assert_eq!(
        response(Error::Unknown(s("u")), false),
        (s("UNKNOWN_ERROR"), s("An unknown error occurred"), None)
    );
}

#[test]
fn error_texts() {
    let s = |t: &str| t.to_string();
    assert_eq!(Error::Database(db(DbErrorKind::Other)).message(), "Database error: driver says no");
    assert_eq!(Error::Io(s("x")).message(), "IO error: x");
    assert_eq!(Error::Config(s("x")).message(), "Configuration error: x");
    assert_eq!(Error::Auth(s("x")).message(), "Authentication error: x");
    assert_eq!(Error::Validation(s("x")).message(), "Validation error: x");
    assert_eq!(Error::NotFound(s("x")).message(), "Not found: x");
    assert_eq!(Error::Conflict(s("x")).message(), "Conflict: x");
    assert_eq!(Error::ExternalService(s("x")).message(), "External service error: x");
    assert_eq!(Error::Serialization(s("x")).message(), "Serialization error: x");
    assert_eq!(Error::Migration(s("x")).message(), "Migration error: x");
    assert_eq!(Error::Unknown(s("x")).message(), "Unknown error: x");
}

#[test]
fn error_helpers() {
    match not_found("Account") {
        Error::NotFound(m) => assert_eq!(m, "Account not found"),
        _ => panic!("expected NotFound"),
    }
    match validation_error("Invalid account type") {
        Error::Validation(m) => assert_eq!(m, "Invalid account type"),
        _ => panic!("expected Validation"),
    }
    match map_err("boom".to_string()) {
        Error::Unknown(m) => assert_eq!(m, "boom"),
        _ => panic!("expected Unknown"),
    }
}

#[test]
fn response_text() {
    let r = ErrorResponse::from_error(not_found("Account"), false);
    assert_eq!(r.into_string(), "Resource not found: Account not found");
    let r = ErrorResponse::from_error(Error::Unknown("u".to_string()), false);
    assert_eq!(r.into_string(), "An unknown error occurred");
    let r = ErrorResponse::from_database(db(DbErrorKind::RowNotFound), true);
    assert_eq!(r.into_string(), "Record not found: driver says no");
}
