use vstd::prelude::*;
use vstd::string::*;

use ureq::Error as TransportError;

verus! {

/// The kind of a failed call, as a value.
pub enum ErrorModel {
    Unauthorized,
    Forbidden,
    NotFound,
    Conflict,
    Generic(Seq<char>),
}

/// Why a call to the remote service failed.
#[derive(Debug, Clone, PartialEq, Eq)]
pub enum Error {
    /// The service answered 401.
    Unauthorized,
    /// The service answered 403.
    Forbidden,
    /// The service answered 404.
    NotFound,
    /// The service answered 409.
    Conflict,
    /// Any other failure: another status, a failed connection, a body that
    /// could not be read; holds a description.
    Generic(String),
}

impl View for Error {
    type V = ErrorModel;

    open spec fn view(&self) -> ErrorModel {
        match self {
            Error::Unauthorized => ErrorModel::Unauthorized,
            Error::Forbidden => ErrorModel::Forbidden,
            Error::NotFound => ErrorModel::NotFound,
            Error::Conflict => ErrorModel::Conflict,
            Error::Generic(d) => ErrorModel::Generic(d@),
        }
    }
}

/// The kind of a failure that came with the HTTP status `status` (`None` when
/// no response came back), described by `detail`.
pub open spec fn kind_of(status: Option<u16>, detail: Seq<char>) -> ErrorModel {
    match status {
        Some(401) => ErrorModel::Unauthorized,
        Some(403) => ErrorModel::Forbidden,
        Some(404) => ErrorModel::NotFound,
        Some(409) => ErrorModel::Conflict,
        _ => ErrorModel::Generic(detail),
    }
}

/// The text that reports an error to the user.
pub open spec fn error_text(e: ErrorModel) -> Seq<char> {
    match e {
        ErrorModel::Unauthorized => "Unauthorized"@,
        ErrorModel::Forbidden => "Forbidden"@,
        ErrorModel::NotFound => "Not Found"@,
        ErrorModel::Conflict => "Conflict"@,
        ErrorModel::Generic(d) => "Error: "@ + d,
    }
}

/// How an error is written with `{:?}`: the name of its kind, and for
/// `Generic` the quoted description.
pub open spec fn error_debug(e: ErrorModel) -> Seq<char> {
    match e {
        ErrorModel::Unauthorized => "Unauthorized"@,
        ErrorModel::Forbidden => "Forbidden"@,
        ErrorModel::NotFound => "NotFound"@,
        ErrorModel::Conflict => "Conflict"@,
        ErrorModel::Generic(d) => "Generic("@ + debug_str(d) + ")"@,
    }
}

#[verifier::external_type_specification]
#[verifier::external_body]
pub struct ExTransportError(TransportError);

/// The HTTP status that an error of the transport carries, if any.
pub uninterp spec fn status_of(e: TransportError) -> Option<u16>;

/// How `std` writes a string with `{:?}`: quoted, with escapes.
pub uninterp spec fn debug_str(s: Seq<char>) -> Seq<char>;

/// Relies on the `StatusCode` variant of `ureq::Error`, which carries the
/// status of a response that ureq turned into an error.
#[verifier::external_body]
fn status_code(err: &TransportError) -> (r: Option<u16>)
    ensures
        r == status_of(*err),
{
    match err {
        TransportError::StatusCode(code) => Some(*code),
        _ => None,
    }
}

/// Relies on the `Debug` impl that `ureq::Error` derives, for a description;
/// a derived `Debug` writes at least the name of the variant. The text of an
/// I/O error comes from the platform, so nothing more is stated of it.
#[verifier::external_body]
fn describe(err: &TransportError) -> (r: String)
    ensures
        r@.len() > 0,
{
    format!("{err:?}")
}

/// Relies on the `Debug` impl of `str`.
#[verifier::external_body]
fn debug_quoted(s: &str) -> (r: String)
    ensures
        r@ == debug_str(s@),
{
    format!("{s:?}")
}

impl Error {
    /// Classifies a failed call by its HTTP status: 401, 403, 404 and 409 have
    /// kinds of their own; any other status, or no response at all, is
    /// `Generic` with `detail`.
    pub fn classify(status: Option<u16>, detail: String) -> (r: Error)
        ensures
            r@ == kind_of(status, detail@),
    {
        match status {
            Some(401) => Error::Unauthorized,
            Some(403) => Error::Forbidden,
            Some(404) => Error::NotFound,
            Some(409) => Error::Conflict,
            _ => Error::Generic(detail),
        }
    }

    /// Classifies an error of the HTTP transport, by the status that it
    /// carries and its description.
    pub fn from_transport(err: &TransportError) -> (r: Error)
        ensures
            match status_of(*err) {
                Some(401) => r == Error::Unauthorized,
                Some(403) => r == Error::Forbidden,
                Some(404) => r == Error::NotFound,
                Some(409) => r == Error::Conflict,
                _ => r matches Error::Generic(d) && d@.len() > 0,
            },
    {
        let status = status_code(err);
        let detail = describe(err);
        Error::classify(status, detail)
    }

    /// This error as `{:?}` writes it.
    pub fn debug_text(&self) -> (r: String)
        ensures
            r@ == error_debug(self@),
    {
        match self {
            Error::Unauthorized => "Unauthorized".to_owned(),
            Error::Forbidden => "Forbidden".to_owned(),
            Error::NotFound => "NotFound".to_owned(),
            Error::Conflict => "Conflict".to_owned(),
            Error::Generic(d) => "Generic(".to_owned().concat(debug_quoted(d.as_str()).as_str()).concat(
                ")",
            ),
        }
    }

    /// The text that reports this error to the user.
    pub fn message(&self) -> (r: String)
        ensures
            r@ == error_text(self@),
    {
        match self {
            Error::Unauthorized => "Unauthorized".to_owned(),
            Error::Forbidden => "Forbidden".to_owned(),
            Error::NotFound => "Not Found".to_owned(),
            Error::Conflict => "Conflict".to_owned(),
            Error::Generic(d) => "Error: ".to_owned().concat(d.as_str()),
        }
    }
}

/// One of the eight operations of a client.
#[derive(Debug, Clone, Copy, PartialEq, Eq)]
pub enum Operation {
    DownloadJobArtifact,
    DeleteJobArtifact,
    DeleteJob,
    DispatchScan,
    DownloadBlobFile,
    UploadBlobFile,
    CreateRunnerRegistration,
    CreateBhlastDomain,
}

/// What the user is told when `op` fails with `e`: the words for `op` and
/// the error as `{:?}` writes it. A conflict on a dispatch
/// means that the scan is already scheduled; creating a domain has its own
/// words for a refusal and for a bad token.
pub open spec fn failure_text(op: Operation, e: ErrorModel) -> Seq<char> {
    match op {
        Operation::DownloadJobArtifact => "Failed to download file: "@ + error_debug(e),
        Operation::DeleteJobArtifact => "failed to delete job artifact: "@ + error_debug(e),
        Operation::DeleteJob => "failed to delete job: "@ + error_debug(e),
        Operation::DispatchScan => match e {
            ErrorModel::Conflict => "failed to dispatch scan: scan is already scheduled for this workflow"@,
            _ => "failed to dispatch scan: "@ + error_debug(e),
        },
        Operation::DownloadBlobFile => "Failed to download file: "@ + error_debug(e),
        Operation::UploadBlobFile => "Failed to upload blob file: "@ + error_debug(e),
        Operation::CreateRunnerRegistration => "Failed to create runner registration: "@ + error_debug(e),
        Operation::CreateBhlastDomain => match e {
            ErrorModel::Forbidden => "You cannot create more bhlast domains"@,
            ErrorModel::Unauthorized => "Unauthorized: invalid token"@,
            _ => "Failed to create bhlast domain: "@ + error_debug(e),
        },
    }
}

/// What the user is told when `op` fails with `e`.
pub fn failure_message(op: Operation, e: &Error) -> (r: String)
    ensures
        r@ == failure_text(op, e@),
{
    match op {
        Operation::DownloadJobArtifact => "Failed to download file: ".to_owned().concat(
            e.debug_text().as_str(),
        ),
        Operation::DeleteJobArtifact => "failed to delete job artifact: ".to_owned().concat(
            e.debug_text().as_str(),
        ),
        Operation::DeleteJob => "failed to delete job: ".to_owned().concat(e.debug_text().as_str()),
        Operation::DispatchScan => match e {
            Error::Conflict => "failed to dispatch scan: scan is already scheduled for this workflow".to_owned(),
            _ => "failed to dispatch scan: ".to_owned().concat(e.debug_text().as_str()),
        },
        Operation::DownloadBlobFile => "Failed to download file: ".to_owned().concat(
            e.debug_text().as_str(),
        ),
        Operation::UploadBlobFile => "Failed to upload blob file: ".to_owned().concat(
            e.debug_text().as_str(),
        ),
        Operation::CreateRunnerRegistration => "Failed to create runner registration: ".to_owned().concat(
            e.debug_text().as_str(),
        ),
        Operation::CreateBhlastDomain => match e {
            Error::Forbidden => "You cannot create more bhlast domains".to_owned(),
            Error::Unauthorized => "Unauthorized: invalid token".to_owned(),
            _ => "Failed to create bhlast domain: ".to_owned().concat(e.debug_text().as_str()),
        },
    }
}

/// Each failed status maps to one kind: 401 is `Unauthorized`, 403
/// `Forbidden`, 404 `NotFound`, 409 `Conflict`, and every other status that
/// is not a success is `Generic`, as is a failure without a response.
pub proof fn lemma_status_kinds(status: u16, detail: Seq<char>)
    requires
        !(200 <= status < 300),
    ensures
        (kind_of(Some(status), detail) == ErrorModel::Unauthorized) <==> status == 401,
        (kind_of(Some(status), detail) == ErrorModel::Forbidden) <==> status == 403,
        (kind_of(Some(status), detail) == ErrorModel::NotFound) <==> status == 404,
        (kind_of(Some(status), detail) == ErrorModel::Conflict) <==> status == 409,
        status != 401 && status != 403 && status != 404 && status != 409 ==> kind_of(
            Some(status),
            detail,
        ) == ErrorModel::Generic(detail),
        kind_of(None, detail) == ErrorModel::Generic(detail),
{
}

/// A 409 is a conflict for every operation. A conflict on a dispatch is
/// reported as a scan that is already scheduled, in words that no other
/// operation uses for a conflict; every other operation reports the bare
/// conflict.
pub proof fn lemma_dispatch_conflict(op: Operation, detail: Seq<char>)
    ensures
        kind_of(Some(409), detail) == ErrorModel::Conflict,
        failure_text(Operation::DispatchScan, ErrorModel::Conflict)
            == "failed to dispatch scan: scan is already scheduled for this workflow"@,
        op != Operation::DispatchScan ==> exists|prefix: Seq<char>|
            failure_text(op, ErrorModel::Conflict) == prefix + "Conflict"@,
        op != Operation::DispatchScan ==> failure_text(op, ErrorModel::Conflict) != failure_text(
            Operation::DispatchScan,
            ErrorModel::Conflict,
        ),
{
    reveal_strlit("failed to dispatch scan: scan is already scheduled for this workflow");
    reveal_strlit("Conflict");
    let conflict = "Conflict"@;
    let scheduled = "failed to dispatch scan: scan is already scheduled for this workflow"@;
    if op != Operation::DispatchScan {
        let prefix = match op {
            Operation::DownloadJobArtifact => "Failed to download file: "@,
            Operation::DeleteJobArtifact => "failed to delete job artifact: "@,
            Operation::DeleteJob => "failed to delete job: "@,
            Operation::DownloadBlobFile => "Failed to download file: "@,
            Operation::UploadBlobFile => "Failed to upload blob file: "@,
            Operation::CreateRunnerRegistration => "Failed to create runner registration: "@,
            _ => "Failed to create bhlast domain: "@,
        };
        let t = failure_text(op, ErrorModel::Conflict);
        assert(t == prefix + conflict);
        // the scheduled text ends in "workflow", the other in "Conflict"
        assert(t[t.len() - 1] == 't');
        assert(scheduled[scheduled.len() - 1] == 'w');
    }
}

} // verus!
