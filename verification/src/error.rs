//! The failures that the service reports, and how each is shown to a client.

use vstd::prelude::*;
use vstd::string::StringExecFns;

verus! {

/// A failure of a service operation. Failures raised by the database driver,
/// the configuration loader and the file system are carried as their text.
#[derive(Debug)]
pub enum AppError {
    NotFound(String),
    BadRequest(String),
    InternalServerError(String),
    DatabaseError(String),
    ConfigError(String),
    IoError(String),
    ValidationError(String),
    StorageError(String),
    InternalServer(String),
}

pub type AppResult<T> = Result<T, AppError>;

/// The kind of a failure, without its text.
#[derive(Debug, Clone, Copy, PartialEq, Eq, Structural)]
pub enum ErrorKind {
    NotFound,
    BadRequest,
    InternalServerError,
    DatabaseError,
    ConfigError,
    IoError,
    ValidationError,
    StorageError,
    InternalServer,
}

/// HTTP status for an entity that was created.
pub const STATUS_CREATED: u16 = 201;

/// HTTP status for a request that was served and has nothing to show.
pub const STATUS_NO_CONTENT: u16 = 204;

/// HTTP status for a missing entity.
pub const STATUS_NOT_FOUND: u16 = 404;

/// HTTP status for a request that cannot be honoured.
pub const STATUS_BAD_REQUEST: u16 = 400;

/// HTTP status for a failure inside the service.
pub const STATUS_INTERNAL_SERVER_ERROR: u16 = 500;

/// The status with which a failure of the given kind is answered.
pub open spec fn status_of(kind: ErrorKind) -> u16 {
    match kind {
        ErrorKind::NotFound => STATUS_NOT_FOUND,
        ErrorKind::BadRequest => STATUS_BAD_REQUEST,
        ErrorKind::ValidationError => STATUS_BAD_REQUEST,
        _ => STATUS_INTERNAL_SERVER_ERROR,
    }
}

/// The words that open the text of a failure of the given kind.
pub open spec fn prefix_of(kind: ErrorKind) -> Seq<char> {
    match kind {
        ErrorKind::NotFound => "Not found: "@,
        ErrorKind::BadRequest => "Bad request: "@,
        ErrorKind::InternalServerError => "Internal server error: "@,
        ErrorKind::DatabaseError => "Database error: "@,
        ErrorKind::ConfigError => "Configuration error: "@,
        ErrorKind::IoError => "IO error: "@,
        ErrorKind::ValidationError => "Validation error: "@,
        ErrorKind::StorageError => "Storage error: "@,
        ErrorKind::InternalServer => "Internal server error: "@,
    }
}

/// What a client is told of a failure: the detail for the kinds that stem
/// from the request, a fixed sentence for those that stem from the machinery.
pub open spec fn public_message(kind: ErrorKind, detail: Seq<char>) -> Seq<char> {
    match kind {
        ErrorKind::DatabaseError => "Database error occurred"@,
        ErrorKind::ConfigError => "Configuration error occurred"@,
        ErrorKind::IoError => "IO error occurred"@,
        ErrorKind::StorageError => "Storage error occurred"@,
        _ => detail,
    }
}

/// Whether an outcome is a failure of the given kind with the given text.
pub open spec fn fails_with<T>(r: AppResult<T>, kind: ErrorKind, detail: Seq<char>) -> bool {
    r matches Err(e) && e.is(kind, detail)
}

impl AppError {
    /// The kind of this failure.
    pub open spec fn spec_kind(&self) -> ErrorKind {
        match self {
            AppError::NotFound(_) => ErrorKind::NotFound,
            AppError::BadRequest(_) => ErrorKind::BadRequest,
            AppError::InternalServerError(_) => ErrorKind::InternalServerError,
            AppError::DatabaseError(_) => ErrorKind::DatabaseError,
            AppError::ConfigError(_) => ErrorKind::ConfigError,
            AppError::IoError(_) => ErrorKind::IoError,
            AppError::ValidationError(_) => ErrorKind::ValidationError,
            AppError::StorageError(_) => ErrorKind::StorageError,
            AppError::InternalServer(_) => ErrorKind::InternalServer,
        }
    }

    /// The text that this failure carries.
    pub open spec fn detail(&self) -> Seq<char> {
        match self {
            AppError::NotFound(m) => m@,
            AppError::BadRequest(m) => m@,
            AppError::InternalServerError(m) => m@,
            AppError::DatabaseError(m) => m@,
            AppError::ConfigError(m) => m@,
            AppError::IoError(m) => m@,
            AppError::ValidationError(m) => m@,
            AppError::StorageError(m) => m@,
            AppError::InternalServer(m) => m@,
        }
    }

    /// Whether this failure is of the given kind and carries the given text.
    pub open spec fn is(&self, kind: ErrorKind, detail: Seq<char>) -> bool {
        self.spec_kind() == kind && self.detail() == detail
    }

    /// The kind of this failure.
    #[verifier::when_used_as_spec(spec_kind)]
    pub fn kind(&self) -> (k: ErrorKind)
        ensures
            k == self.spec_kind(),
    {
        match self {
            AppError::NotFound(_) => ErrorKind::NotFound,
            AppError::BadRequest(_) => ErrorKind::BadRequest,
            AppError::InternalServerError(_) => ErrorKind::InternalServerError,
            AppError::DatabaseError(_) => ErrorKind::DatabaseError,
            AppError::ConfigError(_) => ErrorKind::ConfigError,
            AppError::IoError(_) => ErrorKind::IoError,
            AppError::ValidationError(_) => ErrorKind::ValidationError,
            AppError::StorageError(_) => ErrorKind::StorageError,
            AppError::InternalServer(_) => ErrorKind::InternalServer,
        }
    }

    fn message(&self) -> (m: &String)
        ensures
            m@ == self.detail(),
    {
        match self {
            AppError::NotFound(m) => m,
            AppError::BadRequest(m) => m,
            AppError::InternalServerError(m) => m,
            AppError::DatabaseError(m) => m,
            AppError::ConfigError(m) => m,
            AppError::IoError(m) => m,
            AppError::ValidationError(m) => m,
            AppError::StorageError(m) => m,
            AppError::InternalServer(m) => m,
        }
    }

    /// The failure as one line of text: the words for its kind, then its
    /// detail.
    pub fn fmt(&self) -> (s: String)
        ensures
            s@ == prefix_of(self.spec_kind()) + self.detail(),
    {
        let head: &str = match self {
            AppError::NotFound(_) => "Not found: ",
            AppError::BadRequest(_) => "Bad request: ",
            AppError::InternalServerError(_) => "Internal server error: ",
            AppError::DatabaseError(_) => "Database error: ",
            AppError::ConfigError(_) => "Configuration error: ",
            AppError::IoError(_) => "IO error: ",
            AppError::ValidationError(_) => "Validation error: ",
            AppError::StorageError(_) => "Storage error: ",
            AppError::InternalServer(_) => "Internal server error: ",
        };
        let mut s = String::from_str(head);
        s.append(self.message().as_str());
        s
    }

    /// The status and the message with which this failure is answered.
    pub fn into_response(self) -> (r: (u16, String))
        ensures
            r.0 == status_of(self.spec_kind()),
            r.1@ == public_message(self.spec_kind(), self.detail()),
    {
        match self {
            AppError::NotFound(msg) => (STATUS_NOT_FOUND, msg),
            AppError::BadRequest(msg) => (STATUS_BAD_REQUEST, msg),
            AppError::ValidationError(msg) => (STATUS_BAD_REQUEST, msg),
            AppError::InternalServerError(msg) => (STATUS_INTERNAL_SERVER_ERROR, msg),
            AppError::DatabaseError(_) => (
                STATUS_INTERNAL_SERVER_ERROR,
                String::from_str("Database error occurred"),
            ),
            AppError::ConfigError(_) => (
                STATUS_INTERNAL_SERVER_ERROR,
                String::from_str("Configuration error occurred"),
            ),
            AppError::IoError(_) => (
                STATUS_INTERNAL_SERVER_ERROR,
                String::from_str("IO error occurred"),
            ),
            AppError::StorageError(_) => (
                STATUS_INTERNAL_SERVER_ERROR,
                String::from_str("Storage error occurred"),
            ),
            AppError::InternalServer(msg) => (STATUS_INTERNAL_SERVER_ERROR, msg),
        }
    }
}

} // verus!
