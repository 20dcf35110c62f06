//! Errors of the backend and the error responses sent to the client.

use vstd::prelude::*;
use crate::text::join;

verus! {

/// The kinds of database failure that responses tell apart.
pub enum DbErrorKind {
    RowNotFound,
    Database,
    ColumnNotFound(String),
    PoolClosed,
    PoolTimedOut,
    Other,
}

/// A database failure: its kind and the text the database driver gives
/// for it.
pub struct DatabaseError {
    pub kind: DbErrorKind,
    pub text: String,
}

/// Comprehensive internal error type. Payloads of outside errors (database,
/// I/O, serialization) are held as the text those errors display.
pub enum Error {
    Database(DatabaseError),
    Io(String),
    Config(String),
    Auth(String),
    Validation(String),
    NotFound(String),
    Conflict(String),
    ExternalService(String),
    Serialization(String),
    Migration(String),
    Unknown(String),
}

/// Serializable error response for client consumption.
pub struct ErrorResponse {
    pub code: String,
    pub message: String,
    pub details: Option<String>,
}

impl DatabaseError {
    /// The message a response gives for this database failure.
    pub open spec fn response_message(self) -> Seq<char> {
        match self.kind {
            DbErrorKind::RowNotFound => "Record not found"@,
            DbErrorKind::Database => "Database error"@,
            DbErrorKind::ColumnNotFound(col) => "Column not found: "@ + col@,
            DbErrorKind::PoolClosed => "Database connection pool closed"@,
            DbErrorKind::PoolTimedOut => "Database connection timeout"@,
            DbErrorKind::Other => "Database error occurred"@,
        }
    }
}

impl Error {
    /// The text of the error (the wording of its `Display`).
    pub open spec fn text(self) -> Seq<char> {
        match self {
            Error::Database(e) => "Database error: "@ + e.text@,
            Error::Io(s) => "IO error: "@ + s@,
            Error::Config(s) => "Configuration error: "@ + s@,
            Error::Auth(s) => "Authentication error: "@ + s@,
            Error::Validation(s) => "Validation error: "@ + s@,
            Error::NotFound(s) => "Not found: "@ + s@,
            Error::Conflict(s) => "Conflict: "@ + s@,
            Error::ExternalService(s) => "External service error: "@ + s@,
            Error::Serialization(s) => "Serialization error: "@ + s@,
            Error::Migration(s) => "Migration error: "@ + s@,
            Error::Unknown(s) => "Unknown error: "@ + s@,
        }
    }

    /// The code of the response for this error.
    pub open spec fn response_code(self) -> Seq<char> {
        match self {
            Error::Database(_) => "DATABASE_ERROR"@,
            Error::Io(_) => "IO_ERROR"@,
            Error::Config(_) => "CONFIG_ERROR"@,
            Error::Auth(_) => "AUTH_ERROR"@,
            Error::Validation(_) => "VALIDATION_ERROR"@,
            Error::NotFound(_) => "NOT_FOUND"@,
            Error::Conflict(_) => "CONFLICT_ERROR"@,
            Error::ExternalService(_) => "EXTERNAL_SERVICE_ERROR"@,
            Error::Serialization(_) => "SERIALIZATION_ERROR"@,
            Error::Migration(_) => "MIGRATION_ERROR"@,
            Error::Unknown(_) => "UNKNOWN_ERROR"@,
        }
    }

    /// The message of the response for this error.
    pub open spec fn response_message(self) -> Seq<char> {
        match self {
            Error::Database(e) => e.response_message(),
            Error::Io(_) => "A file system error occurred"@,
            Error::Config(_) => "A configuration error occurred"@,
            Error::Auth(_) => "An authentication error occurred"@,
            Error::Validation(_) => "A validation error occurred"@,
            Error::NotFound(_) => "Resource not found"@,
            Error::Conflict(_) => "A conflict occurred"@,
            Error::ExternalService(_) => "An external service error occurred"@,
            Error::Serialization(_) => "A data serialization error occurred"@,
            Error::Migration(_) => "A database migration error occurred"@,
            Error::Unknown(_) => "An unknown error occurred"@,
        }
    }

    /// The details of the response for this error: the messages of errors
    /// raised by the application itself always, the texts of outside
    /// failures and unknown errors only in a debug build.
    pub open spec fn response_details(self, debug: bool) -> Option<Seq<char>> {
        match self {
            Error::Database(e) => if debug { Some(e.text@) } else { None },
            Error::Io(s) => if debug { Some(s@) } else { None },
            Error::Serialization(s) => if debug { Some(s@) } else { None },
            Error::Unknown(s) => if debug { Some(s@) } else { None },
            Error::Config(s) => Some(s@),
            Error::Auth(s) => Some(s@),
            Error::Validation(s) => Some(s@),
            Error::NotFound(s) => Some(s@),
            Error::Conflict(s) => Some(s@),
            Error::ExternalService(s) => Some(s@),
            Error::Migration(s) => Some(s@),
        }
    }

    /// The text of the error (what its `Display` writes and what converting
    /// it into a `String` gives).
    pub fn message(&self) -> (r: String)
        ensures
            r@ == self.text(),
    {
        match self {
            Error::Database(e) => join("Database error: ", e.text.as_str()),
            Error::Io(s) => join("IO error: ", s.as_str()),
            Error::Config(s) => join("Configuration error: ", s.as_str()),
            Error::Auth(s) => join("Authentication error: ", s.as_str()),
            Error::Validation(s) => join("Validation error: ", s.as_str()),
            Error::NotFound(s) => join("Not found: ", s.as_str()),
            Error::Conflict(s) => join("Conflict: ", s.as_str()),
            Error::ExternalService(s) => join("External service error: ", s.as_str()),
            Error::Serialization(s) => join("Serialization error: ", s.as_str()),
            Error::Migration(s) => join("Migration error: ", s.as_str()),
            Error::Unknown(s) => join("Unknown error: ", s.as_str()),
        }
    }
}

/// Converts a generic error, given by its text, into an `Unknown` error.
pub fn map_err(description: String) -> (r: Error)
    ensures
        r matches Error::Unknown(s) && s@ == description@,
{
    Error::Unknown(description)
}

/// The error for a missing resource: "<resource> not found".
pub fn not_found(resource: &str) -> (r: Error)
    ensures
        r matches Error::NotFound(s) && s@ == resource@ + " not found"@,
{
    Error::NotFound(join(resource, " not found"))
}

/// The error for invalid input, carrying the given message.
pub fn validation_error(message: &str) -> (r: Error)
    ensures
        r matches Error::Validation(s) && s@ == message@,
{
    Error::Validation(message.to_owned())
}

impl ErrorResponse {
    /// The response for a database failure (code `DATABASE_ERROR`); its text
    /// is given as details only in a debug build.
    pub fn from_database(err: DatabaseError, debug: bool) -> (r: ErrorResponse)
        ensures
            r.code@ == "DATABASE_ERROR"@,
            r.message@ == err.response_message(),
            r.details.deep_view() == (if debug { Some(err.text@) } else { None::<Seq<char>> }),
    {
        let message = match &err.kind {
            DbErrorKind::RowNotFound => "Record not found".to_owned(),
            DbErrorKind::Database => "Database error".to_owned(),
            DbErrorKind::ColumnNotFound(col) => join("Column not found: ", col.as_str()),
            DbErrorKind::PoolClosed => "Database connection pool closed".to_owned(),
            DbErrorKind::PoolTimedOut => "Database connection timeout".to_owned(),
            DbErrorKind::Other => "Database error occurred".to_owned(),
        };
        ErrorResponse {
            code: "DATABASE_ERROR".to_owned(),
            message,
            details: if debug { Some(err.text) } else { None },
        }
    }

    /// The response for an error: a code per kind of error, a fixed message
    /// (per kind of failure for database errors), and details as
    /// `Error::response_details` says. `debug` tells whether this is a debug
    /// build.
    pub fn from_error(err: Error, debug: bool) -> (r: ErrorResponse)
        ensures
            r.code@ == err.response_code(),
            r.message@ == err.response_message(),
            r.details.deep_view() == err.response_details(debug),
    {
        match err {
            Error::Database(e) => ErrorResponse::from_database(e, debug),
            Error::Io(s) => ErrorResponse {
                code: "IO_ERROR".to_owned(),
                message: "A file system error occurred".to_owned(),
                details: if debug { Some(s) } else { None },
            },
            Error::Config(s) => ErrorResponse {
                code: "CONFIG_ERROR".to_owned(),
                message: "A configuration error occurred".to_owned(),
                details: Some(s),
            },
            Error::Auth(s) => ErrorResponse {
                code: "AUTH_ERROR".to_owned(),
                message: "An authentication error occurred".to_owned(),
                details: Some(s),
            },
            Error::Validation(s) => ErrorResponse {
                code: "VALIDATION_ERROR".to_owned(),
                message: "A validation error occurred".to_owned(),
                details: Some(s),
            },
            Error::NotFound(s) => ErrorResponse {
                code: "NOT_FOUND".to_owned(),
                message: "Resource not found".to_owned(),
                details: Some(s),
            },
            Error::Conflict(s) => ErrorResponse {
                code: "CONFLICT_ERROR".to_owned(),
                message: "A conflict occurred".to_owned(),
                details: Some(s),
            },
            Error::ExternalService(s) => ErrorResponse {
                code: "EXTERNAL_SERVICE_ERROR".to_owned(),
                message: "An external service error occurred".to_owned(),
                details: Some(s),
            },
            Error::Serialization(s) => ErrorResponse {
                code: "SERIALIZATION_ERROR".to_owned(),
                message: "A data serialization error occurred".to_owned(),
                details: if debug { Some(s) } else { None },
            },
            Error::Migration(s) => ErrorResponse {
                code: "MIGRATION_ERROR".to_owned(),
                message: "A database migration error occurred".to_owned(),
                details: Some(s),
            },
            Error::Unknown(s) => ErrorResponse {
                code: "UNKNOWN_ERROR".to_owned(),
                message: "An unknown error occurred".to_owned(),
                details: if debug { Some(s) } else { None },
            },
        }
    }

    /// The text of a response, as commands return it: "<message>: <details>"
    /// when there are details, the message alone otherwise.
    pub open spec fn text_of(message: Seq<char>, details: Option<Seq<char>>) -> Seq<char> {
        match details {
            Some(d) => message + ": "@ + d,
            None => message,
        }
    }

    /// The text of the response (its conversion into a `String`).
    pub fn into_string(self) -> (r: String)
        ensures
            r@ == ErrorResponse::text_of(self.message@, self.details.deep_view()),
    {
        match self.details {
            Some(details) => {
                let mut r = join(self.message.as_str(), ": ");
                r.append(details.as_str());
                r
            },
            None => self.message,
        }
    }
}

} // verus!
