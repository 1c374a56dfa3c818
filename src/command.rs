use vstd::prelude::*;
use vstd::string::*;

use crate::client::Client;
use crate::error::{failure_message, failure_text, Error, ErrorModel, Operation};
use crate::input::{fault_message, opt_views_of};
use crate::request::{dispatch_of, prepare_dispatch, RunnerRegistrationResponse};

verus! {

/// Personal access tokens of the service start with these characters.
pub open spec fn is_token(t: Seq<char>) -> bool {
    t.len() >= 3 && t.take(3) == "bhv"@
}

/// Whether `token` has the form of a personal access token: it starts with
/// `bhv`.
pub fn valid_token(token: &str) -> (r: bool)
    ensures
        r == is_token(token@),
{
    proof {
        reveal_strlit("bhv");
    }
    let n = token.unicode_len();
    if n < 3 {
        return false;
    }
    let ok = token.get_char(0) == 'b' && token.get_char(1) == 'h' && token.get_char(2) == 'v';
    if ok {
        assert(token@.take(3) =~= "bhv"@);
    } else {
        assert(token@.take(3)[0] != 'b' || token@.take(3)[1] != 'h' || token@.take(3)[2] != 'v');
    }
    ok
}

/// What a download writes to, given the `output` that the user named.
#[derive(Debug, Clone, PartialEq, Eq)]
pub enum OutputTarget {
    /// The file that the user named.
    File(String),
    /// A file of the download's own name inside the directory that the user
    /// named.
    Within(String),
    /// A file of the download's own name in the working directory.
    WorkingDirectory,
}

/// Where a download goes: into `output` when it names a directory, to
/// `output` itself when it names anything else, and into the working
/// directory when no output is named.
pub fn output_target(output: Option<String>, output_is_dir: bool) -> (r: OutputTarget)
    ensures
        match output {
            Some(o) => if output_is_dir {
                r == OutputTarget::Within(o)
            } else {
                r == OutputTarget::File(o)
            },
            None => r == OutputTarget::WorkingDirectory,
        },
{
    match output {
        Some(o) => if output_is_dir {
            OutputTarget::Within(o)
        } else {
            OutputTarget::File(o)
        },
        None => OutputTarget::WorkingDirectory,
    }
}

/// What a command reports for the outcome `res` of its call: the value on
/// success, the words for `op` and the error on failure.
pub fn report<T>(op: Operation, res: Result<T, Error>) -> (r: Result<T, String>)
    ensures
        match res {
            Ok(v) => r == Ok::<T, String>(v),
            Err(e) => r matches Err(m) && m@ == failure_text(op, e@),
        },
{
    match res {
        Ok(v) => Ok(v),
        Err(e) => Err(failure_message(op, &e)),
    }
}

/// The outcome of a command whose call was made: whatever the service
/// answered, a failure is reported in the words for `op`.
pub open spec fn reported<T>(op: Operation, r: Result<T, String>) -> bool {
    match r {
        Ok(_) => true,
        Err(m) => exists|e: ErrorModel| m@ == failure_text(op, e),
    }
}

/// Deletes a job.
pub fn job_delete<C: Client>(client: &C, job_id: u128) -> (r: Result<(), String>)
    ensures
        reported(Operation::DeleteJob, r),
{
    report(Operation::DeleteJob, client.delete_job(job_id))
}

/// Opens the download of an artifact of a job.
pub fn job_artifact_download<C: Client>(client: &C, job_id: u128, name: &str) -> (r: Result<
    C::Stream,
    String,
>)
    ensures
        reported(Operation::DownloadJobArtifact, r),
{
    report(Operation::DownloadJobArtifact, client.download_job_artifact(job_id, name))
}

/// Deletes an artifact of a job.
pub fn job_artifact_delete<C: Client>(client: &C, job_id: u128, name: &str) -> (r: Result<
    (),
    String,
>)
    ensures
        reported(Operation::DeleteJobArtifact, r),
{
    report(Operation::DeleteJobArtifact, client.delete_job_artifact(job_id, name))
}

/// Dispatches a scan of a workflow. A bad scan name or a bad variable token
/// is reported before the service is called; otherwise the scan is sent with
/// the typed variables, and a failure is reported in the words for a
/// dispatch.
pub fn scan_dispatch<C: Client>(
    client: &C,
    workflow_id: u128,
    scan_name: String,
    input_string: Option<Vec<String>>,
    input_bool: Option<Vec<String>>,
) -> (r: Result<(), String>)
    ensures
        match dispatch_of(scan_name@, opt_views_of(input_string), opt_views_of(input_bool)) {
            Err(f) => r matches Err(m) && m@ == fault_message(f),
            Ok(_) => reported(Operation::DispatchScan, r),
        },
{
    match prepare_dispatch(scan_name, input_string, input_bool) {
        Ok(req) => report(
            Operation::DispatchScan,
            client.dispatch_scan(workflow_id, req.scan_name, req.inputs),
        ),
        Err(e) => Err(e.message()),
    }
}

/// Opens the download of a blob.
pub fn blob_download<C: Client>(client: &C, path: &str) -> (r: Result<C::Stream, String>)
    ensures
        reported(Operation::DownloadBlobFile, r),
{
    report(Operation::DownloadBlobFile, client.download_blob_file(path))
}

/// Uploads an open file as the blob `dst`.
pub fn blob_upload<C: Client>(client: &C, file: C::LocalFile, dst: &str) -> (r: Result<(), String>)
    ensures
        reported(Operation::UploadBlobFile, r),
{
    report(Operation::UploadBlobFile, client.upload_blob_file(file, dst))
}

/// What the token command gives for the outcome of creating a registration:
/// the token on success, the words for the failure otherwise.
pub fn registration_token(res: Result<RunnerRegistrationResponse, Error>) -> (r: Result<
    String,
    String,
>)
    ensures
        match res {
            Ok(resp) => r == Ok::<String, String>(resp.token),
            Err(e) => r matches Err(m) && m@ == failure_text(Operation::CreateRunnerRegistration, e@),
        },
{
    match res {
        Ok(resp) => Ok(resp.token),
        Err(e) => Err(failure_message(Operation::CreateRunnerRegistration, &e)),
    }
}

/// What the command-line command gives for the outcome of creating a
/// registration: the line that registers a runner with its token and URL on
/// success, the words for the failure otherwise.
pub fn registration_command(res: Result<RunnerRegistrationResponse, Error>) -> (r: Result<
    String,
    String,
>)
    ensures
        match res {
            Ok(resp) => r matches Ok(l) && l@ == "runner configure --token \""@ + resp.token@
                + "\" --url \""@ + resp.url@ + "\""@,
            Err(e) => r matches Err(m) && m@ == failure_text(Operation::CreateRunnerRegistration, e@),
        },
{
    match res {
        Ok(resp) => Ok(resp.command_line()),
        Err(e) => Err(failure_message(Operation::CreateRunnerRegistration, &e)),
    }
}

/// Creates a runner registration and gives its token.
pub fn runner_registration_token<C: Client>(client: &C) -> (r: Result<String, String>)
    ensures
        reported(Operation::CreateRunnerRegistration, r),
{
    registration_token(client.create_runner_registration())
}

/// Creates a runner registration and gives the command that registers a
/// runner with it.
pub fn runner_registration_command<C: Client>(client: &C) -> (r: Result<String, String>)
    ensures
        reported(Operation::CreateRunnerRegistration, r),
{
    registration_command(client.create_runner_registration())
}

/// Creates a bhlast domain and gives its id.
pub fn bhlast_create<C: Client>(client: &C) -> (r: Result<String, String>)
    ensures
        reported(Operation::CreateBhlastDomain, r),
{
    report(Operation::CreateBhlastDomain, client.create_bhlast_domain())
}

} // verus!
