use bh::error::{failure_message, Error, Operation};

#[test]
fn status_codes_map_to_kinds() {
    let d = || "detail".to_string();
    assert_eq!(Error::classify(Some(401), d()), Error::Unauthorized);
    assert_eq!(Error::classify(Some(403), d()), Error::Forbidden);
    assert_eq!(Error::classify(Some(404), d()), Error::NotFound);
    assert_eq!(Error::classify(Some(409), d()), Error::Conflict);
    assert_eq!(Error::classify(Some(500), d()), Error::Generic("detail".to_string()));
    assert_eq!(Error::classify(Some(400), d()), Error::Generic("detail".to_string()));
    assert_eq!(Error::classify(None, d()), Error::Generic("detail".to_string()));
}

#[test]
fn transport_errors_are_classified() {
    assert_eq!(Error::from_transport(&ureq::Error::StatusCode(401)), Error::Unauthorized);
    assert_eq!(Error::from_transport(&ureq::Error::StatusCode(403)), Error::Forbidden);
    assert_eq!(Error::from_transport(&ureq::Error::StatusCode(404)), Error::NotFound);
    assert_eq!(Error::from_transport(&ureq::Error::StatusCode(409)), Error::Conflict);
    assert_eq!(
        Error::from_transport(&ureq::Error::StatusCode(502)),
        Error::Generic("StatusCode(502)".to_string())
    );
    assert_eq!(
        Error::from_transport(&ureq::Error::HostNotFound),
        Error::Generic("HostNotFound".to_string())
    );
}

#[test]
fn error_messages() {
    assert_eq!(Error::Unauthorized.message(), "Unauthorized");
    assert_eq!(Error::Forbidden.message(), "Forbidden");
    assert_eq!(Error::NotFound.message(), "Not Found");
    assert_eq!(Error::Conflict.message(), "Conflict");
    assert_eq!(Error::Generic("boom".to_string()).message(), "Error: boom");
}

#[test]
fn dispatch_conflict_is_already_scheduled() {
    assert_eq!(
        failure_message(Operation::DispatchScan, &Error::Conflict),
        "failed to dispatch scan: scan is already scheduled for this workflow"
    );
    assert_eq!(failure_message(Operation::DeleteJob, &Error::Conflict), "failed to delete job: Conflict");
    assert_eq!(
        failure_message(Operation::DispatchScan, &Error::NotFound),
        "failed to dispatch scan: NotFound"
    );
}

#[test]
fn failure_messages() {
    assert_eq!(
        failure_message(Operation::DownloadJobArtifact, &Error::Unauthorized),
        "Failed to download file: Unauthorized"
    );
    assert_eq!(
        failure_message(Operation::DeleteJobArtifact, &Error::Forbidden),
        "failed to delete job artifact: Forbidden"
    );
    assert_eq!(
        failure_message(Operation::DownloadBlobFile, &Error::NotFound),
        "Failed to download file: NotFound"
    );
    assert_eq!(
        failure_message(Operation::UploadBlobFile, &Error::Generic("x".to_string())),
        "Failed to upload blob file: Generic(\"x\")"
    );
    assert_eq!(
        failure_message(Operation::CreateRunnerRegistration, &Error::Conflict),
        "Failed to create runner registration: Conflict"
    );
    assert_eq!(
        failure_message(Operation::CreateBhlastDomain, &Error::Forbidden),
        "You cannot create more bhlast domains"
    );
    assert_eq!(
        failure_message(Operation::CreateBhlastDomain, &Error::Unauthorized),
        "Unauthorized: invalid token"
    );
    assert_eq!(
        failure_message(Operation::CreateBhlastDomain, &Error::NotFound),
        "Failed to create bhlast domain: NotFound"
    );
}

#[test]
fn debug_texts() {
    assert_eq!(Error::Unauthorized.debug_text(), format!("{:?}", Error::Unauthorized));
    assert_eq!(Error::NotFound.debug_text(), "NotFound");
    assert_eq!(Error::Conflict.debug_text(), "Conflict");
    let g = Error::Generic("say \"hi\"\n".to_string());
    assert_eq!(g.debug_text(), "Generic(\"say \\\"hi\\\"\\n\")");
    assert_eq!(g.debug_text(), format!("{g:?}"));
}

#[test]
fn generic_failures_use_debug_form() {
    assert_eq!(
        failure_message(Operation::DeleteJob, &Error::Generic("a\"b".to_string())),
        "failed to delete job: Generic(\"a\\\"b\")"
    );
}
