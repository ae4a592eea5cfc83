//! The error taxonomy shared by every operation.

use vstd::prelude::*;
use vstd::string::StringExecFns;

verus! {

/// The six ways an operation can fail, independent of the resource involved.
#[derive(Clone, Copy, Debug, PartialEq, Eq, Structural)]
pub enum ErrorKind {
    /// The network exchange itself failed.
    Transport,
    /// The store's query layer reported an error.
    RemoteQueryFailure,
    /// The response body did not have the expected shape.
    ResponseDecodeFailure,
    /// The exchange succeeded but its outcome contradicts the request.
    DataIntegrity,
    /// The caller's input was rejected before any request was made.
    Validation,
    /// Required deployment configuration is missing.
    Configuration,
}

/// A classified failure together with its message.
#[derive(Clone, Debug, PartialEq, Eq)]
pub enum AppError {
    /// Data integrity: zero rows where one was expected, or an unexpected status.
    DatabaseError(String),
    /// Validation of the caller's input.
    BadRequest(String),
    /// Failure reported by the store's query layer.
    PostgrestError(String),
    /// The response body could not be decoded.
    JsonParseError(String),
    /// The transport failed.
    RequestError(String),
    /// Deployment configuration is missing.
    ConfigError(String),
}

/// The mathematical content of an [`AppError`]: its kind and its message.
pub ghost struct Failure {
    pub kind: ErrorKind,
    pub message: Seq<char>,
}

impl View for AppError {
    type V = Failure;

    open spec fn view(&self) -> Failure {
        match self {
            AppError::DatabaseError(m) => Failure { kind: ErrorKind::DataIntegrity, message: m@ },
            AppError::BadRequest(m) => Failure { kind: ErrorKind::Validation, message: m@ },
            AppError::PostgrestError(m) => Failure {
                kind: ErrorKind::RemoteQueryFailure,
                message: m@,
            },
            AppError::JsonParseError(m) => Failure {
                kind: ErrorKind::ResponseDecodeFailure,
                message: m@,
            },
            AppError::RequestError(m) => Failure { kind: ErrorKind::Transport, message: m@ },
            AppError::ConfigError(m) => Failure { kind: ErrorKind::Configuration, message: m@ },
        }
    }
}

/// The HTTP status that reports a failure of the given kind.
pub open spec fn status_of(kind: ErrorKind) -> u16 {
    match kind {
        ErrorKind::Configuration | ErrorKind::DataIntegrity | ErrorKind::RemoteQueryFailure => 500,
        ErrorKind::Validation | ErrorKind::ResponseDecodeFailure | ErrorKind::Transport => 400,
    }
}

/// The words that precede the message when a failure of the given kind is
/// written out in full.
pub open spec fn label_of(kind: ErrorKind) -> Seq<char> {
    match kind {
        ErrorKind::DataIntegrity => "Database error: "@,
        ErrorKind::Validation => "Bad request: "@,
        ErrorKind::RemoteQueryFailure => "Postgrest error: "@,
        ErrorKind::ResponseDecodeFailure => "Json parse error: "@,
        ErrorKind::Transport => "Request error: "@,
        ErrorKind::Configuration => "Configuration error: "@,
    }
}

impl AppError {
    /// The kind of this failure.
    pub fn kind(&self) -> (kind: ErrorKind)
        ensures
            kind == self@.kind,
    {
        match self {
            AppError::DatabaseError(_) => ErrorKind::DataIntegrity,
            AppError::BadRequest(_) => ErrorKind::Validation,
            AppError::PostgrestError(_) => ErrorKind::RemoteQueryFailure,
            AppError::JsonParseError(_) => ErrorKind::ResponseDecodeFailure,
            AppError::RequestError(_) => ErrorKind::Transport,
            AppError::ConfigError(_) => ErrorKind::Configuration,
        }
    }

    /// The message carried by this failure, without any label.
    pub fn message(&self) -> (message: &String)
        ensures
            message@ == self@.message,
    {
        match self {
            AppError::DatabaseError(m) => m,
            AppError::BadRequest(m) => m,
            AppError::PostgrestError(m) => m,
            AppError::JsonParseError(m) => m,
            AppError::RequestError(m) => m,
            AppError::ConfigError(m) => m,
        }
    }

    /// The HTTP status under which this failure is reported.
    pub fn status_code(&self) -> (code: u16)
        ensures
            code == status_of(self@.kind),
            code == 400 || code == 500,
    {
        match self {
            AppError::DatabaseError(_) => 500,
            AppError::BadRequest(_) => 400,
            AppError::PostgrestError(_) => 500,
            AppError::JsonParseError(_) => 400,
            AppError::RequestError(_) => 400,
            AppError::ConfigError(_) => 500,
        }
    }

    /// The failure written out in full: the label of its kind, then the message.
    pub fn to_string(&self) -> (text: String)
        ensures
            text@ == label_of(self@.kind) + self@.message,
    {
        let label: &str = match self {
            AppError::DatabaseError(_) => "Database error: ",
            AppError::BadRequest(_) => "Bad request: ",
            AppError::PostgrestError(_) => "Postgrest error: ",
            AppError::JsonParseError(_) => "Json parse error: ",
            AppError::RequestError(_) => "Request error: ",
            AppError::ConfigError(_) => "Configuration error: ",
        };
        let mut text = String::from_str(label);
        text.append(self.message().as_str());
        text
    }

    /// Splits the failure into the status and the body of the response that
    /// reports it. The body is the bare message.
    pub fn into_response(self) -> (response: (u16, String))
        ensures
            response.0 == status_of(self@.kind),
            response.1@ == self@.message,
    {
        let code = self.status_code();
        let message = match self {
            AppError::DatabaseError(m) => m,
            AppError::BadRequest(m) => m,
            AppError::PostgrestError(m) => m,
            AppError::JsonParseError(m) => m,
            AppError::RequestError(m) => m,
            AppError::ConfigError(m) => m,
        };
        (code, message)
    }
}

/// Two failures of different kinds are never reported as the same value, so
/// a caller can always tell the kinds apart.
pub proof fn kinds_are_distinguishable(a: AppError, b: AppError)
    requires
        a@.kind != b@.kind,
    ensures
        a != b,
        a@ != b@,
{
}

} // verus!
