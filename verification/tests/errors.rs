//! Mapping of gRPC statuses to errors, and what errors say of themselves.

use goosefs_sdk::error::{classify_status, Error, StatusKind};

#[test]
fn test_unauthenticated_maps_to_authentication_failed() {
    let status = tonic::Status::unauthenticated("token expired");
    let err = Error::from(status);
    assert!(err.is_authentication_failed());
    assert!(err.is_retriable());
}

#[test]
fn test_failed_precondition_directory_not_empty() {
    let status =
        tonic::Status::failed_precondition("/foo/bar is not empty, cannot delete recursively");
    let err = Error::from(status);
    assert!(
        err.is_directory_not_empty(),
        "expected DirectoryNotEmpty, got {:?}",
        err
    );
}

#[test]
fn test_failed_precondition_file_incomplete() {
    let status = tonic::Status::failed_precondition("/tmp/partial.parquet is incomplete");
    let err = Error::from(status);
    assert!(
        err.is_file_incomplete(),
        "expected FileIncomplete, got {:?}",
        err
    );
}

#[test]
fn test_failed_precondition_is_directory() {
    let status = tonic::Status::failed_precondition("/data/dir Is a directory");
    let err = Error::from(status);
    assert!(
        matches!(err, Error::OpenDirectory { .. }),
        "expected OpenDirectory, got {:?}",
        err
    );
}

#[test]
fn test_failed_precondition_unknown_falls_through_to_grpc_error() {
    let status = tonic::Status::failed_precondition("some other precondition failure");
    let err = Error::from(status);
    assert!(
        matches!(err, Error::GrpcError { .. }),
        "expected GrpcError fallthrough, got {:?}",
        err
    );
}

#[test]
fn test_not_found_helper() {
    let status = tonic::Status::not_found("/missing");
    let err = Error::from(status);
    assert!(err.is_not_found());
}

#[test]
fn test_is_access_denied_covers_both_variants() {
    let perm = Error::PermissionDenied {
        message: "no".to_string(),
    };
    let auth = Error::AuthenticationFailed {
        message: "expired".to_string(),
    };
    assert!(perm.is_access_denied());
    assert!(auth.is_access_denied());
}

#[test]
fn every_code_has_its_variant() {
    assert!(matches!(
        Error::from(tonic::Status::already_exists("/a")),
        Error::AlreadyExists { path } if path == "/a"
    ));
    assert!(matches!(
        Error::from(tonic::Status::permission_denied("no")),
        Error::PermissionDenied { message } if message == "no"
    ));
    assert!(matches!(
        Error::from(tonic::Status::invalid_argument("bad")),
        Error::InvalidArgument { message } if message == "bad"
    ));
    assert!(matches!(
        Error::from(tonic::Status::not_found("/missing")),
        Error::NotFound { path } if path == "/missing"
    ));
}

#[test]
fn transient_codes_are_retriable() {
    assert!(Error::from(tonic::Status::unavailable("later")).is_retriable());
    assert!(Error::from(tonic::Status::deadline_exceeded("late")).is_retriable());
    assert!(Error::from(tonic::Status::aborted("again")).is_retriable());
    assert!(!Error::from(tonic::Status::internal("broken")).is_retriable());
    assert!(!Error::from(tonic::Status::not_found("/x")).is_retriable());
}

#[test]
fn grpc_error_names_code_and_message() {
    let err = Error::from(tonic::Status::internal("broken"));
    match &err {
        Error::GrpcError { message, source } => {
            assert!(message.contains("broken"));
            assert_ne!(message, "broken");
            assert_eq!(source.message(), "broken");
        }
        other => panic!("unexpected {:?}", other),
    }
    let text = err.to_string();
    assert!(text.starts_with("gRPC error: "));
    assert!(text.contains("broken"));
}

#[test]
fn transport_error_is_kept_and_described() {
    let failure = tonic::transport::Endpoint::from_shared("not a uri".to_string()).unwrap_err();
    let words = failure.to_string();
    let err = Error::from(failure);
    assert!(err.is_retriable());
    assert_eq!(
        err.to_string(),
        format!("gRPC transport error: {} \u{2014} {}", words, words)
    );
}

#[test]
fn status_kinds_go_by_code_and_message() {
    assert_eq!(classify_status(5, "/x"), StatusKind::NotFound);
    assert_eq!(
        classify_status(9, "/x is not empty, cannot delete recursively"),
        StatusKind::DirectoryNotEmpty
    );
    assert_eq!(classify_status(16, "expired"), StatusKind::AuthenticationFailed);
}

#[test]
fn errors_say_what_they_are() {
    assert_eq!(
        Error::NotFound { path: "/a".to_string() }.to_string(),
        "not found: /a"
    );
    assert_eq!(
        Error::missing_field("length").to_string(),
        "missing field in response: length"
    );
    assert_eq!(
        Error::Internal { message: "m".to_string(), source: None }.to_string(),
        "internal error: m"
    );
    assert_eq!(
        Error::NoWorkerAvailable { message: "m".to_string() }.to_string(),
        "no worker available: m"
    );
    assert_eq!(
        Error::BlockIoError { message: "m".to_string() }.to_string(),
        "block IO error: m"
    );
    assert_eq!(
        Error::FileIncomplete { message: "m".to_string() }.to_string(),
        "file is incomplete: m"
    );
    assert_eq!(
        Error::InvalidPath { path: "p".to_string() }.to_string(),
        "invalid path: p"
    );
}

#[test]
fn rejected_credentials_are_retriable_and_denied() {
    let err = Error::AuthenticationFailed { message: "expired".to_string() };
    assert!(err.is_retriable());
    assert!(err.is_access_denied());
    assert!(err.is_authentication_failed());
    assert!(!err.is_already_exists());
}

#[test]
fn grpc_codes_are_described() {
    let described = |code: tonic::Code| match Error::from(tonic::Status::new(code, "x")) {
        Error::GrpcError { message, .. } => message,
        other => panic!("unexpected {:?}", other),
    };
    assert_eq!(described(tonic::Code::Cancelled), "[The operation was cancelled] x");
    assert_eq!(described(tonic::Code::Unknown), "[Unknown error] x");
    assert_eq!(
        described(tonic::Code::OutOfRange),
        "[Operation was attempted past the valid range] x"
    );
    assert_eq!(
        described(tonic::Code::Unimplemented),
        "[Operation is not implemented or not supported] x"
    );
    assert_eq!(
        described(tonic::Code::DataLoss),
        "[Unrecoverable data loss or corruption] x"
    );
}
