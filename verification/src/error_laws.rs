//! What the errors tell of the replies they come from.
//!
//! `call_ensures(f, args, r)` says that `r` is a result of the call of `f` with `args`.

use vstd::prelude::*;

use crate::error::{classify_status, status_code, status_message, Error, StatusKind};
use crate::text::contains;

verus! {

/// The kind of a refused request goes by the code of the reply; among the failed
/// preconditions it goes by the first of three phrases in the message.
pub proof fn law_status_is_classified_by_code_and_phrase(
    code: i32,
    message: &str,
    r: StatusKind,
    not_empty: bool,
    incomplete: bool,
    directory: bool,
)
    requires
        call_ensures(classify_status, (code, message), r),
        call_ensures(contains, (message, "is not empty"), not_empty),
        call_ensures(contains, (message, "is incomplete"), incomplete),
        call_ensures(contains, (message, "Is a directory"), directory),
    ensures
        (code == 5) == (r is NotFound),
        (code == 6) == (r is AlreadyExists),
        (code == 7) == (r is PermissionDenied),
        (code == 3) == (r is InvalidArgument),
        (code == 16) == (r is AuthenticationFailed),
        (code == 9 && not_empty) == (r is DirectoryNotEmpty),
        (code == 9 && !not_empty && incomplete) == (r is FileIncomplete),
        (code == 9 && !not_empty && !incomplete && directory) == (r is OpenDirectory),
{
}

/// An error made from a reply answers to its kind and to no other, and carries the
/// message of the reply.
pub proof fn law_error_answers_to_the_reply(
    status: tonic::Status,
    e: Error,
    not_found: bool,
    exists_already: bool,
    denied: bool,
    unauthenticated: bool,
    not_empty: bool,
    incomplete: bool,
)
    requires
        call_ensures(<Error as From<tonic::Status>>::from, (status,), e),
        call_ensures(Error::is_not_found, (&e,), not_found),
        call_ensures(Error::is_already_exists, (&e,), exists_already),
        call_ensures(Error::is_access_denied, (&e,), denied),
        call_ensures(Error::is_authentication_failed, (&e,), unauthenticated),
        call_ensures(Error::is_directory_not_empty, (&e,), not_empty),
        call_ensures(Error::is_file_incomplete, (&e,), incomplete),
    ensures
        not_found == (status_code(status) == 5),
        exists_already == (status_code(status) == 6),
        denied == (status_code(status) == 7 || status_code(status) == 16),
        unauthenticated == (status_code(status) == 16),
        not_empty ==> status_code(status) == 9,
        incomplete ==> status_code(status) == 9 && !not_empty,
        e matches Error::NotFound { path } ==> path@ == status_message(status),
        e matches Error::AlreadyExists { path } ==> path@ == status_message(status),
        e matches Error::OpenDirectory { path } ==> path@ == status_message(status),
        e matches Error::PermissionDenied { message } ==> message@ == status_message(status),
        e matches Error::InvalidArgument { message } ==> message@ == status_message(status),
        e matches Error::AuthenticationFailed { message } ==> message@ == status_message(status),
        e matches Error::DirectoryNotEmpty { message } ==> message@ == status_message(status),
        e matches Error::FileIncomplete { message } ==> message@ == status_message(status),
{
}

/// A refused request is worth another try exactly if the service was unavailable, the
/// time ran out, the operation was aborted, or the login had lapsed; so is one that did
/// not get through, and nothing that went wrong at the client.
pub proof fn law_retriable_failures(status: tonic::Status, e: Error, r: bool, o: Error, ro: bool)
    requires
        call_ensures(<Error as From<tonic::Status>>::from, (status,), e),
        call_ensures(Error::is_retriable, (&e,), r),
        call_ensures(Error::is_retriable, (&o,), ro),
    ensures
        r == (status_code(status) == 14 || status_code(status) == 4 || status_code(status) == 10
            || status_code(status) == 16),
        o is TransportError ==> ro,
        o is Internal || o is MissingField || o is BlockIoError || o is NoWorkerAvailable
            || o is ResourceExhausted || o is MasterUnavailable || o is ConfigError
            || o is InvalidPath || o is NotFound || o is AlreadyExists || o is PermissionDenied
            || o is InvalidArgument || o is FileIncomplete || o is DirectoryNotEmpty
            || o is OpenDirectory ==> !ro,
{
}

/// An error made from a failed connection keeps that failure.
pub proof fn law_transport_failure_is_kept(failure: tonic::transport::Error, e: Error)
    requires
        call_ensures(<Error as From<tonic::transport::Error>>::from, (failure,), e),
    ensures
        e matches Error::TransportError { source, .. } && *source == failure,
{
}

/// The words of an error end in what it carries, and a missing field is named.
pub proof fn law_words_end_in_the_message(e: Error, s: String, field: &str, m: Error)
    requires
        call_ensures(Error::to_string, (&e,), s),
        call_ensures(Error::missing_field, (field,), m),
    ensures
        m matches Error::MissingField { field: f } && f@ == field@,
        e matches Error::NotFound { path } ==> s@ == "not found: "@ + path@,
        e matches Error::AlreadyExists { path } ==> s@ == "already exists: "@ + path@,
        e matches Error::PermissionDenied { message } ==> s@ == "permission denied: "@ + message@,
        e matches Error::InvalidArgument { message } ==> s@ == "invalid argument: "@ + message@,
        e matches Error::MissingField { field } ==> s@ == "missing field in response: "@ + field@,
        e matches Error::BlockIoError { message } ==> s@ == "block IO error: "@ + message@,
        e matches Error::NoWorkerAvailable { message } ==> s@ == "no worker available: "@
            + message@,
        e matches Error::ResourceExhausted { message } ==> s@ == "resource exhausted: "@ + message@,
        e matches Error::MasterUnavailable { message } ==> s@ == "master unavailable: "@ + message@,
        e matches Error::ConfigError { message } ==> s@ == "config error: "@ + message@,
        e matches Error::FileIncomplete { message } ==> s@ == "file is incomplete: "@ + message@,
        e matches Error::DirectoryNotEmpty { message } ==> s@ == "directory is not empty: "@
            + message@,
        e matches Error::OpenDirectory { path } ==> s@ == "path is a directory: "@ + path@,
        e matches Error::InvalidPath { path } ==> s@ == "invalid path: "@ + path@,
        e matches Error::AuthenticationFailed { message } ==> s@ == "authentication failed: "@
            + message@,
        e matches Error::Internal { message, .. } ==> s@ == "internal error: "@ + message@,
{
}

} // verus!
