//! Error types of the GooseFS client.
//!
//! One [`Error`] enum carries every failure. A gRPC status is mapped to the
//! domain variant that its code and its message denote; a status that denotes
//! none stays a [`Error::GrpcError`].

use tonic::transport::Error as TransportFailure;
use vstd::prelude::*;
use vstd::string::*;

use crate::text::contains;
use crate::text::occurs_in;

verus! {

/// Result of an SDK operation.
pub type Result<T> = std::result::Result<T, Error>;

/// The gRPC status of a failed call, as tonic delivers it.
#[verifier::external_type_specification]
#[verifier::external_body]
pub struct ExStatus(tonic::Status);

/// A connection-level failure, as tonic delivers it.
#[verifier::external_type_specification]
#[verifier::external_body]
pub struct ExTransportFailure(TransportFailure);

/// gRPC code `INVALID_ARGUMENT`.
pub const CODE_INVALID_ARGUMENT: i32 = 3;

/// gRPC code `DEADLINE_EXCEEDED`.
pub const CODE_DEADLINE_EXCEEDED: i32 = 4;

/// gRPC code `NOT_FOUND`.
pub const CODE_NOT_FOUND: i32 = 5;

/// gRPC code `ALREADY_EXISTS`.
pub const CODE_ALREADY_EXISTS: i32 = 6;

/// gRPC code `PERMISSION_DENIED`.
pub const CODE_PERMISSION_DENIED: i32 = 7;

/// gRPC code `FAILED_PRECONDITION`.
pub const CODE_FAILED_PRECONDITION: i32 = 9;

/// gRPC code `ABORTED`.
pub const CODE_ABORTED: i32 = 10;

/// gRPC code `UNAVAILABLE`.
pub const CODE_UNAVAILABLE: i32 = 14;

/// gRPC code `UNAUTHENTICATED`.
pub const CODE_UNAUTHENTICATED: i32 = 16;

/// The number of the gRPC code of a status.
pub uninterp spec fn status_code(status: tonic::Status) -> i32;

/// The message of a status.
pub uninterp spec fn status_message(status: tonic::Status) -> Seq<char>;

/// The text in which a status is displayed.
pub uninterp spec fn status_text(status: tonic::Status) -> Seq<char>;

/// The words that describe the gRPC code with the given number. A number that is no
/// code counts as that of an unknown error.
pub open spec fn code_description(code: i32) -> Seq<char> {
    match code {
        0 => "The operation completed successfully"@,
        1 => "The operation was cancelled"@,
        3 => "Client specified an invalid argument"@,
        4 => "Deadline expired before operation could complete"@,
        5 => "Some requested entity was not found"@,
        6 => "Some entity that we attempted to create already exists"@,
        7 => "The caller does not have permission to execute the specified operation"@,
        8 => "Some resource has been exhausted"@,
        9 => "The system is not in a state required for the operation's execution"@,
        10 => "The operation was aborted"@,
        11 => "Operation was attempted past the valid range"@,
        12 => "Operation is not implemented or not supported"@,
        13 => "Internal error"@,
        14 => "The service is currently unavailable"@,
        15 => "Unrecoverable data loss or corruption"@,
        16 => "The request does not have valid authentication credentials"@,
        _ => "Unknown error"@,
    }
}

/// The text in which a connection-level failure is displayed.
pub uninterp spec fn transport_text(failure: TransportFailure) -> Seq<char>;

/// `tonic::Status::code`: the gRPC code of the status, as its number.
#[verifier::external_body]
fn code_of(status: &tonic::Status) -> (r: i32)
    ensures
        r == status_code(*status),
{
    i32::from(status.code())
}

/// `tonic::Status::message`: the message of the status.
#[verifier::external_body]
fn message_of(status: &tonic::Status) -> (r: String)
    ensures
        r@ == status_message(*status),
{
    status.message().to_string()
}

/// The `Display` of `tonic::Status`, named as it stands: it shows the code, the
/// message and what lies behind the failure.
#[verifier::external_body]
fn display_status(status: &tonic::Status) -> (r: String)
    ensures
        r@ == status_text(*status),
{
    status.to_string()
}

/// `tonic::Code::description` of `tonic::Code::from_i32`: the words for the code with
/// this number.
#[verifier::external_body]
fn describe_code(code: i32) -> (r: String)
    ensures
        r@ == code_description(code),
{
    tonic::Code::from_i32(code).description().to_string()
}

/// The `Display` of `tonic::transport::Error`, named as it stands.
#[verifier::external_body]
fn display_transport(failure: &TransportFailure) -> (r: String)
    ensures
        r@ == transport_text(*failure),
{
    failure.to_string()
}

/// Top-level error of the SDK.
#[derive(Debug)]
#[allow(inconsistent_fields)]
pub enum Error {
    /// A gRPC failure that no domain variant stands for.
    GrpcError {
        /// The description of the code in brackets, then the status message.
        message: String,
        /// The status itself.
        source: Box<tonic::Status>,
    },
    /// A failure of the connection below gRPC.
    TransportError {
        /// The failure in words.
        message: String,
        /// The failure itself.
        source: Box<TransportFailure>,
    },
    /// An internal failure.
    Internal {
        /// What failed.
        message: String,
        /// The cause in words, where there is one.
        source: Option<String>,
    },
    /// The file or directory does not exist.
    NotFound {
        /// The server's message, which names the path.
        path: String,
    },
    /// The file or directory already exists.
    AlreadyExists {
        /// The server's message, which names the path.
        path: String,
    },
    /// The caller may not perform the operation.
    PermissionDenied {
        /// What was refused.
        message: String,
    },
    /// The caller supplied an invalid argument.
    InvalidArgument {
        /// What is wrong with it.
        message: String,
    },
    /// A required field is missing in a response.
    MissingField {
        /// The name of the field.
        field: String,
    },
    /// Reading or writing a block failed.
    BlockIoError {
        /// What failed.
        message: String,
    },
    /// No worker can serve the request.
    NoWorkerAvailable {
        /// Why there is none.
        message: String,
    },
    /// The workers have no room for the request.
    ResourceExhausted {
        /// What ran out.
        message: String,
    },
    /// No primary master could be discovered.
    MasterUnavailable {
        /// Why there is none.
        message: String,
    },
    /// The configuration is invalid.
    ConfigError {
        /// What is wrong with it.
        message: String,
    },
    /// The file exists but its writer has not completed it.
    FileIncomplete {
        /// Which file.
        message: String,
    },
    /// A directory that is not empty was to be deleted without recursion.
    DirectoryNotEmpty {
        /// Which directory.
        message: String,
    },
    /// A directory was to be opened as a file.
    OpenDirectory {
        /// Which path.
        path: String,
    },
    /// The path is syntactically invalid.
    InvalidPath {
        /// Which path.
        path: String,
    },
    /// The master or a worker rejected the credentials. The worker itself is
    /// healthy, so a router must not mark it as failed.
    AuthenticationFailed {
        /// What was rejected.
        message: String,
    },
}

/// What an [`Error`] says.
#[allow(inconsistent_fields)]
pub enum ErrorView {
    /// See [`Error::GrpcError`].
    GrpcError { message: Seq<char>, source: tonic::Status },
    /// See [`Error::TransportError`].
    TransportError { message: Seq<char>, source: TransportFailure },
    /// See [`Error::Internal`].
    Internal { message: Seq<char>, source: Option<Seq<char>> },
    /// See [`Error::NotFound`].
    NotFound { path: Seq<char> },
    /// See [`Error::AlreadyExists`].
    AlreadyExists { path: Seq<char> },
    /// See [`Error::PermissionDenied`].
    PermissionDenied { message: Seq<char> },
    /// See [`Error::InvalidArgument`].
    InvalidArgument { message: Seq<char> },
    /// See [`Error::MissingField`].
    MissingField { field: Seq<char> },
    /// See [`Error::BlockIoError`].
    BlockIoError { message: Seq<char> },
    /// See [`Error::NoWorkerAvailable`].
    NoWorkerAvailable { message: Seq<char> },
    /// See [`Error::ResourceExhausted`].
    ResourceExhausted { message: Seq<char> },
    /// See [`Error::MasterUnavailable`].
    MasterUnavailable { message: Seq<char> },
    /// See [`Error::ConfigError`].
    ConfigError { message: Seq<char> },
    /// See [`Error::FileIncomplete`].
    FileIncomplete { message: Seq<char> },
    /// See [`Error::DirectoryNotEmpty`].
    DirectoryNotEmpty { message: Seq<char> },
    /// See [`Error::OpenDirectory`].
    OpenDirectory { path: Seq<char> },
    /// See [`Error::InvalidPath`].
    InvalidPath { path: Seq<char> },
    /// See [`Error::AuthenticationFailed`].
    AuthenticationFailed { message: Seq<char> },
}

impl View for Error {
    type V = ErrorView;

    open spec fn view(&self) -> ErrorView {
        match *self {
            Error::GrpcError { message, source } => ErrorView::GrpcError {
                message: message@,
                source: *source,
            },
            Error::TransportError { message, source } => ErrorView::TransportError {
                message: message@,
                source: *source,
            },
            Error::Internal { message, source } => ErrorView::Internal {
                message: message@,
                source: match source {
                    Some(s) => Some(s@),
                    None => None,
                },
            },
            Error::NotFound { path } => ErrorView::NotFound { path: path@ },
            Error::AlreadyExists { path } => ErrorView::AlreadyExists { path: path@ },
            Error::PermissionDenied { message } => ErrorView::PermissionDenied { message: message@ },
            Error::InvalidArgument { message } => ErrorView::InvalidArgument { message: message@ },
            Error::MissingField { field } => ErrorView::MissingField { field: field@ },
            Error::BlockIoError { message } => ErrorView::BlockIoError { message: message@ },
            Error::NoWorkerAvailable { message } => ErrorView::NoWorkerAvailable { message: message@ },
            Error::ResourceExhausted { message } => ErrorView::ResourceExhausted { message: message@ },
            Error::MasterUnavailable { message } => ErrorView::MasterUnavailable { message: message@ },
            Error::ConfigError { message } => ErrorView::ConfigError { message: message@ },
            Error::FileIncomplete { message } => ErrorView::FileIncomplete { message: message@ },
            Error::DirectoryNotEmpty { message } => ErrorView::DirectoryNotEmpty { message: message@ },
            Error::OpenDirectory { path } => ErrorView::OpenDirectory { path: path@ },
            Error::InvalidPath { path } => ErrorView::InvalidPath { path: path@ },
            Error::AuthenticationFailed { message } => ErrorView::AuthenticationFailed { message: message@ },
        }
    }
}

/// The text in which an error is displayed.
pub open spec fn error_text(e: ErrorView) -> Seq<char> {
    match e {
        ErrorView::GrpcError { message, source } => "gRPC error: "@ + message + " — "@
            + status_text(source),
        ErrorView::TransportError { message, source } => "gRPC transport error: "@ + message
            + " — "@ + transport_text(source),
        ErrorView::Internal { message, source } => "internal error: "@ + message,
        ErrorView::NotFound { path } => "not found: "@ + path,
        ErrorView::AlreadyExists { path } => "already exists: "@ + path,
        ErrorView::PermissionDenied { message } => "permission denied: "@ + message,
        ErrorView::InvalidArgument { message } => "invalid argument: "@ + message,
        ErrorView::MissingField { field } => "missing field in response: "@ + field,
        ErrorView::BlockIoError { message } => "block IO error: "@ + message,
        ErrorView::NoWorkerAvailable { message } => "no worker available: "@ + message,
        ErrorView::ResourceExhausted { message } => "resource exhausted: "@ + message,
        ErrorView::MasterUnavailable { message } => "master unavailable: "@ + message,
        ErrorView::ConfigError { message } => "config error: "@ + message,
        ErrorView::FileIncomplete { message } => "file is incomplete: "@ + message,
        ErrorView::DirectoryNotEmpty { message } => "directory is not empty: "@ + message,
        ErrorView::OpenDirectory { path } => "path is a directory: "@ + path,
        ErrorView::InvalidPath { path } => "invalid path: "@ + path,
        ErrorView::AuthenticationFailed { message } => "authentication failed: "@ + message,
    }
}

/// The variants that a gRPC status is mapped to.
#[derive(Debug, Clone, Copy, PartialEq, Eq, Structural)]
pub enum StatusKind {
    /// [`Error::NotFound`].
    NotFound,
    /// [`Error::AlreadyExists`].
    AlreadyExists,
    /// [`Error::PermissionDenied`].
    PermissionDenied,
    /// [`Error::InvalidArgument`].
    InvalidArgument,
    /// [`Error::AuthenticationFailed`].
    AuthenticationFailed,
    /// [`Error::DirectoryNotEmpty`].
    DirectoryNotEmpty,
    /// [`Error::FileIncomplete`].
    FileIncomplete,
    /// [`Error::OpenDirectory`].
    OpenDirectory,
    /// [`Error::GrpcError`].
    Grpc,
}

/// The variant that a status with this code and message is mapped to.
///
/// `FAILED_PRECONDITION` stands for several server exceptions, told apart by
/// a phrase of the message.
pub open spec fn status_kind(code: i32, message: Seq<char>) -> StatusKind {
    if code == CODE_NOT_FOUND {
        StatusKind::NotFound
    } else if code == CODE_ALREADY_EXISTS {
        StatusKind::AlreadyExists
    } else if code == CODE_PERMISSION_DENIED {
        StatusKind::PermissionDenied
    } else if code == CODE_INVALID_ARGUMENT {
        StatusKind::InvalidArgument
    } else if code == CODE_UNAUTHENTICATED {
        StatusKind::AuthenticationFailed
    } else if code == CODE_FAILED_PRECONDITION && occurs_in(message, "is not empty"@) {
        StatusKind::DirectoryNotEmpty
    } else if code == CODE_FAILED_PRECONDITION && occurs_in(message, "is incomplete"@) {
        StatusKind::FileIncomplete
    } else if code == CODE_FAILED_PRECONDITION && occurs_in(message, "Is a directory"@) {
        StatusKind::OpenDirectory
    } else {
        StatusKind::Grpc
    }
}

/// The variant that a status with this code and message is mapped to.
pub fn classify_status(code: i32, message: &str) -> (r: StatusKind)
    ensures
        r == status_kind(code, message@),
{
    if code == CODE_NOT_FOUND {
        StatusKind::NotFound
    } else if code == CODE_ALREADY_EXISTS {
        StatusKind::AlreadyExists
    } else if code == CODE_PERMISSION_DENIED {
        StatusKind::PermissionDenied
    } else if code == CODE_INVALID_ARGUMENT {
        StatusKind::InvalidArgument
    } else if code == CODE_UNAUTHENTICATED {
        StatusKind::AuthenticationFailed
    } else if code == CODE_FAILED_PRECONDITION {
        if contains(message, "is not empty") {
            StatusKind::DirectoryNotEmpty
        } else if contains(message, "is incomplete") {
            StatusKind::FileIncomplete
        } else if contains(message, "Is a directory") {
            StatusKind::OpenDirectory
        } else {
            StatusKind::Grpc
        }
    } else {
        StatusKind::Grpc
    }
}

/// The error that a status is mapped to.
pub open spec fn error_of_status(status: tonic::Status) -> ErrorView {
    let message = status_message(status);
    match status_kind(status_code(status), message) {
        StatusKind::NotFound => ErrorView::NotFound { path: message },
        StatusKind::AlreadyExists => ErrorView::AlreadyExists { path: message },
        StatusKind::PermissionDenied => ErrorView::PermissionDenied { message },
        StatusKind::InvalidArgument => ErrorView::InvalidArgument { message },
        StatusKind::AuthenticationFailed => ErrorView::AuthenticationFailed { message },
        StatusKind::DirectoryNotEmpty => ErrorView::DirectoryNotEmpty { message },
        StatusKind::FileIncomplete => ErrorView::FileIncomplete { message },
        StatusKind::OpenDirectory => ErrorView::OpenDirectory { path: message },
        StatusKind::Grpc => ErrorView::GrpcError {
            message: "["@ + code_description(status_code(status)) + "] "@ + message,
            source: status,
        },
    }
}

impl vstd::std_specs::convert::FromSpecImpl<tonic::Status> for Error {
    open spec fn obeys_from_spec() -> bool {
        false
    }

    open spec fn from_spec(v: tonic::Status) -> Error {
        arbitrary()
    }
}

impl From<tonic::Status> for Error {
    fn from(status: tonic::Status) -> (r: Self)
        ensures
            r@ == error_of_status(status),
    {
        let code = code_of(&status);
        let message = message_of(&status);
        match classify_status(code, message.as_str()) {
            StatusKind::NotFound => Error::NotFound { path: message },
            StatusKind::AlreadyExists => Error::AlreadyExists { path: message },
            StatusKind::PermissionDenied => Error::PermissionDenied { message },
            StatusKind::InvalidArgument => Error::InvalidArgument { message },
            StatusKind::AuthenticationFailed => Error::AuthenticationFailed { message },
            StatusKind::DirectoryNotEmpty => Error::DirectoryNotEmpty { message },
            StatusKind::FileIncomplete => Error::FileIncomplete { message },
            StatusKind::OpenDirectory => Error::OpenDirectory { path: message },
            StatusKind::Grpc => {
                let mut text = String::new();
                text.append("[");
                text.append(describe_code(code).as_str());
                text.append("] ");
                text.append(message.as_str());
                proof {
                    assert(text@ =~= "["@ + code_description(code) + "] "@ + message@);
                }
                Error::GrpcError { message: text, source: Box::new(status) }
            },
        }
    }
}

impl vstd::std_specs::convert::FromSpecImpl<TransportFailure> for Error {
    open spec fn obeys_from_spec() -> bool {
        false
    }

    open spec fn from_spec(v: TransportFailure) -> Error {
        arbitrary()
    }
}

impl From<TransportFailure> for Error {
    fn from(failure: TransportFailure) -> (r: Self)
        ensures
            r@ == (ErrorView::TransportError {
                message: transport_text(failure),
                source: failure,
            }),
    {
        let message = display_transport(&failure);
        Error::TransportError { message, source: Box::new(failure) }
    }
}

impl ErrorView {
    /// The error is worth a retry: the service was unavailable for a moment,
    /// or the credentials may be renewed.
    pub open spec fn retriable(self) -> bool {
        match self {
            ErrorView::GrpcError { source, .. } => status_code(source) == CODE_UNAVAILABLE
                || status_code(source) == CODE_DEADLINE_EXCEEDED || status_code(source)
                == CODE_ABORTED,
            ErrorView::TransportError { .. } => true,
            ErrorView::AuthenticationFailed { .. } => true,
            _ => false,
        }
    }
}

impl Error {
    /// Tells whether the error is transient, so that a retry may succeed.
    ///
    /// Rejected credentials count: the caller renews them before it retries.
    pub fn is_retriable(&self) -> (r: bool)
        ensures
            r == self@.retriable(),
    {
        match self {
            Error::GrpcError { source, .. } => {
                let code = code_of(source);
                code == CODE_UNAVAILABLE || code == CODE_DEADLINE_EXCEEDED || code == CODE_ABORTED
            },
            Error::TransportError { .. } => true,
            Error::AuthenticationFailed { .. } => true,
            _ => false,
        }
    }

    /// Tells whether the file was not found.
    pub fn is_not_found(&self) -> (r: bool)
        ensures
            r == (self@ is NotFound),
    {
        matches!(self, Error::NotFound { .. })
    }

    /// Tells whether the path already exists.
    pub fn is_already_exists(&self) -> (r: bool)
        ensures
            r == (self@ is AlreadyExists),
    {
        matches!(self, Error::AlreadyExists { .. })
    }

    /// Tells whether the file exists but has not been completed.
    pub fn is_file_incomplete(&self) -> (r: bool)
        ensures
            r == (self@ is FileIncomplete),
    {
        matches!(self, Error::FileIncomplete { .. })
    }

    /// Tells whether the directory is not empty.
    pub fn is_directory_not_empty(&self) -> (r: bool)
        ensures
            r == (self@ is DirectoryNotEmpty),
    {
        matches!(self, Error::DirectoryNotEmpty { .. })
    }

    /// Tells whether the credentials were rejected.
    pub fn is_authentication_failed(&self) -> (r: bool)
        ensures
            r == (self@ is AuthenticationFailed),
    {
        matches!(self, Error::AuthenticationFailed { .. })
    }

    /// Tells whether the error is one of permission or of authentication.
    pub fn is_access_denied(&self) -> (r: bool)
        ensures
            r == (self@ is PermissionDenied || self@ is AuthenticationFailed),
    {
        matches!(self, Error::PermissionDenied { .. } | Error::AuthenticationFailed { .. })
    }

    /// The error for a field that a response lacks.
    pub fn missing_field(field: &str) -> (r: Self)
        ensures
            r@ == (ErrorView::MissingField { field: field@ }),
    {
        Error::MissingField { field: field.to_owned() }
    }

    /// The error in words.
    pub fn to_string(&self) -> (r: String)
        ensures
            r@ == error_text(self@),
    {
        let mut out = String::new();
        match self {
            Error::GrpcError { message, source } => {
                out.append("gRPC error: ");
                out.append(message.as_str());
                out.append(" — ");
                out.append(display_status(source).as_str());
            },
            Error::TransportError { message, source } => {
                out.append("gRPC transport error: ");
                out.append(message.as_str());
                out.append(" — ");
                out.append(display_transport(source).as_str());
            },
            Error::Internal { message, .. } => {
                out.append("internal error: ");
                out.append(message.as_str());
            },
            Error::NotFound { path } => {
                out.append("not found: ");
                out.append(path.as_str());
            },
            Error::AlreadyExists { path } => {
                out.append("already exists: ");
                out.append(path.as_str());
            },
            Error::PermissionDenied { message } => {
                out.append("permission denied: ");
                out.append(message.as_str());
            },
            Error::InvalidArgument { message } => {
                out.append("invalid argument: ");
                out.append(message.as_str());
            },
            Error::MissingField { field } => {
                out.append("missing field in response: ");
                out.append(field.as_str());
            },
            Error::BlockIoError { message } => {
                out.append("block IO error: ");
                out.append(message.as_str());
            },
            Error::NoWorkerAvailable { message } => {
                out.append("no worker available: ");
                out.append(message.as_str());
            },
            Error::ResourceExhausted { message } => {
                out.append("resource exhausted: ");
                out.append(message.as_str());
            },
            Error::MasterUnavailable { message } => {
                out.append("master unavailable: ");
                out.append(message.as_str());
            },
            Error::ConfigError { message } => {
                out.append("config error: ");
                out.append(message.as_str());
            },
            Error::FileIncomplete { message } => {
                out.append("file is incomplete: ");
                out.append(message.as_str());
            },
            Error::DirectoryNotEmpty { message } => {
                out.append("directory is not empty: ");
                out.append(message.as_str());
            },
            Error::OpenDirectory { path } => {
                out.append("path is a directory: ");
                out.append(path.as_str());
            },
            Error::InvalidPath { path } => {
                out.append("invalid path: ");
                out.append(path.as_str());
            },
            Error::AuthenticationFailed { message } => {
                out.append("authentication failed: ");
                out.append(message.as_str());
            },
        }
        proof {
            assert(out@ =~= error_text(self@));
        }
        out
    }
}

/// A rejected credential is both retriable and a denial of access.
pub proof fn law_authentication_failure_is_retriable_and_denied(status: tonic::Status)
    requires
        status_code(status) == CODE_UNAUTHENTICATED,
    ensures
        error_of_status(status) is AuthenticationFailed,
        error_of_status(status).retriable(),
{
}

} // verus!
