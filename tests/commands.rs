use std::cell::RefCell;

use bh::client::Client;
use bh::command::{
    bhlast_create, blob_download, blob_upload, job_artifact_delete, job_artifact_download,
    job_delete, registration_command, registration_token, runner_registration_command,
    runner_registration_token, scan_dispatch,
};
use bh::error::Error;
use bh::input::{InputValue, Inputs};
use bh::request::RunnerRegistrationResponse;
use uuid::Uuid;

/// A call that the test double saw.
#[derive(Debug, Clone, PartialEq)]
enum Call {
    DownloadJobArtifact(u128, String),
    DeleteJobArtifact(u128, String),
    DeleteJob(u128),
    DispatchScan(u128, String, Option<Vec<(String, InputValue)>>),
    DownloadBlobFile(String),
    UploadBlobFile(Vec<u8>, String),
    CreateRunnerRegistration,
    CreateBhlastDomain,
}

/// A client that records its calls and answers each with `failure`, or with
/// success when there is none.
struct FakeClient {
    calls: RefCell<Vec<Call>>,
    failure: Option<Error>,
}

impl FakeClient {
    fn answering(failure: Option<Error>) -> Self {
        FakeClient { calls: RefCell::new(Vec::new()), failure }
    }

    fn answer<T>(&self, call: Call, value: T) -> Result<T, Error> {
        self.calls.borrow_mut().push(call);
        match &self.failure {
            Some(e) => Err(e.clone()),
            None => Ok(value),
        }
    }

    fn calls(&self) -> Vec<Call> {
        self.calls.borrow().clone()
    }
}

impl Client for FakeClient {
    type Stream = Vec<u8>;
    type LocalFile = Vec<u8>;

    fn download_job_artifact(&self, job_id: u128, name: &str) -> Result<Vec<u8>, Error> {
        self.answer(Call::DownloadJobArtifact(job_id, name.to_string()), b"artifact".to_vec())
    }

    fn delete_job_artifact(&self, job_id: u128, name: &str) -> Result<(), Error> {
        self.answer(Call::DeleteJobArtifact(job_id, name.to_string()), ())
    }

    fn delete_job(&self, job_id: u128) -> Result<(), Error> {
        self.answer(Call::DeleteJob(job_id), ())
    }

    fn dispatch_scan(
        &self,
        workflow_id: u128,
        scan_name: String,
        inputs: Option<Inputs>,
    ) -> Result<(), Error> {
        let inputs = inputs.map(|m| m.entries().to_vec());
        self.answer(Call::DispatchScan(workflow_id, scan_name, inputs), ())
    }

    fn download_blob_file(&self, path: &str) -> Result<Vec<u8>, Error> {
        self.answer(Call::DownloadBlobFile(path.to_string()), b"blob".to_vec())
    }

    fn upload_blob_file(&self, file: Vec<u8>, dst: &str) -> Result<(), Error> {
        self.answer(Call::UploadBlobFile(file, dst.to_string()), ())
    }

    fn create_runner_registration(&self) -> Result<RunnerRegistrationResponse, Error> {
        let resp = RunnerRegistrationResponse {
            url: "https://runner.example".to_string(),
            token: "rtok".to_string(),
        };
        self.answer(Call::CreateRunnerRegistration, resp)
    }

    fn create_bhlast_domain(&self) -> Result<String, Error> {
        self.answer(Call::CreateBhlastDomain, "domain-id".to_string())
    }
}

#[test]
fn test_download_failed() {
    let job_id = Uuid::now_v7().as_u128();
    let artifact_name = "test.zip";
    let client = FakeClient::answering(Some(Error::Unauthorized));

    let result = job_artifact_download(&client, job_id, artifact_name);
    assert!(result.is_err(), "expected error, got ok");
    assert_eq!(client.calls(), vec![Call::DownloadJobArtifact(job_id, artifact_name.to_string())]);
}

#[test]
fn test_delete_job_call() {
    let job_id = Uuid::now_v7().as_u128();
    let client = FakeClient::answering(None);

    let result = job_delete(&client, job_id);
    assert!(result.is_ok(), "expected ok, got {result:?}");
    assert_eq!(client.calls(), vec![Call::DeleteJob(job_id)]);
}

#[test]
fn test_dispatch_call_no_inputs() {
    let revision_id = Uuid::now_v7().as_u128();
    let client = FakeClient::answering(None);

    let result = scan_dispatch(&client, revision_id, "example".to_string(), None, None);
    assert!(result.is_ok(), "expected ok, got {result:?}");
    assert_eq!(
        client.calls(),
        vec![Call::DispatchScan(revision_id, "example".to_string(), None)]
    );
}

#[test]
fn test_dispatch_call_with_inputs() {
    let revision_id = Uuid::now_v7().as_u128();
    let client = FakeClient::answering(None);

    let result = scan_dispatch(
        &client,
        revision_id,
        "example".to_string(),
        Some(vec!["s_key=s_val".to_string()]),
        Some(vec!["b_key=true".to_string()]),
    );
    assert!(result.is_ok(), "expected ok, got {result:?}");
    let calls = client.calls();
    assert_eq!(calls.len(), 1);
    match &calls[0] {
        Call::DispatchScan(id, name, Some(input)) => {
            assert_eq!(*id, revision_id);
            assert_eq!(name, "example");
            let get = |k: &str| input.iter().find(|(key, _)| key == k).map(|(_, v)| v.clone());
            assert_eq!(get("s_key").expect("s_key to exist"), InputValue::Str("s_val".to_string()));
            assert_eq!(get("b_key").expect("b_key to exist"), InputValue::Bool(true));
        }
        other => panic!("unexpected call {other:?}"),
    }
}

#[test]
fn test_download_blob_file() {
    let client = FakeClient::answering(Some(Error::NotFound));

    let result = blob_download(&client, "file.txt");
    assert!(result.is_err(), "expected error, got ok");
    assert_eq!(client.calls(), vec![Call::DownloadBlobFile("file.txt".to_string())]);
}

#[test]
fn dispatch_conflict_reports_already_scheduled() {
    let client = FakeClient::answering(Some(Error::Conflict));
    let result = scan_dispatch(&client, 7, "scan".to_string(), None, None);
    assert_eq!(
        result,
        Err("failed to dispatch scan: scan is already scheduled for this workflow".to_string())
    );
}

#[test]
fn dispatch_validation_happens_before_the_call() {
    let client = FakeClient::answering(None);
    let result = scan_dispatch(&client, 7, "job-1".to_string(), None, None);
    assert_eq!(result, Err("Invalid scan name: 'job-1'".to_string()));
    let result = scan_dispatch(
        &client,
        7,
        "scan".to_string(),
        None,
        Some(vec!["flag=maybe".to_string()]),
    );
    assert_eq!(result, Err("Value 'maybe' is not a valid boolean".to_string()));
    assert!(client.calls().is_empty());
}

#[test]
fn dispatch_sends_typed_inputs() {
    let client = FakeClient::answering(None);
    let result = scan_dispatch(
        &client,
        1,
        "scan".to_string(),
        Some(vec!["k=v".to_string()]),
        Some(vec!["flag=true".to_string()]),
    );
    assert_eq!(result, Ok(()));
    assert_eq!(
        client.calls(),
        vec![Call::DispatchScan(
            1,
            "scan".to_string(),
            Some(vec![
                ("k".to_string(), InputValue::Str("v".to_string())),
                ("flag".to_string(), InputValue::Bool(true)),
            ])
        )]
    );
}

#[test]
fn other_commands_pass_results_through() {
    let ok = FakeClient::answering(None);
    assert_eq!(job_artifact_download(&ok, 3, "a"), Ok(b"artifact".to_vec()));
    assert_eq!(job_artifact_delete(&ok, 3, "a"), Ok(()));
    assert_eq!(blob_download(&ok, "p"), Ok(b"blob".to_vec()));
    assert_eq!(blob_upload(&ok, b"data".to_vec(), "dst/x"), Ok(()));
    assert_eq!(runner_registration_token(&ok), Ok("rtok".to_string()));
    assert_eq!(
        runner_registration_command(&ok),
        Ok("runner configure --token \"rtok\" --url \"https://runner.example\"".to_string())
    );
    assert_eq!(bhlast_create(&ok), Ok("domain-id".to_string()));
    assert_eq!(
        ok.calls(),
        vec![
            Call::DownloadJobArtifact(3, "a".to_string()),
            Call::DeleteJobArtifact(3, "a".to_string()),
            Call::DownloadBlobFile("p".to_string()),
            Call::UploadBlobFile(b"data".to_vec(), "dst/x".to_string()),
            Call::CreateRunnerRegistration,
            Call::CreateRunnerRegistration,
            Call::CreateBhlastDomain,
        ]
    );
}

#[test]
fn commands_report_failures() {
    let forbidden = FakeClient::answering(Some(Error::Forbidden));
    assert_eq!(bhlast_create(&forbidden), Err("You cannot create more bhlast domains".to_string()));
    assert_eq!(
        job_artifact_delete(&forbidden, 3, "a"),
        Err("failed to delete job artifact: Forbidden".to_string())
    );
    let generic = FakeClient::answering(Some(Error::Generic("timeout".to_string())));
    assert_eq!(
        blob_upload(&generic, Vec::new(), "d"),
        Err("Failed to upload blob file: Generic(\"timeout\")".to_string())
    );
    assert_eq!(
        runner_registration_token(&generic),
        Err("Failed to create runner registration: Generic(\"timeout\")".to_string())
    );
    assert_eq!(job_delete(&generic, 1), Err("failed to delete job: Generic(\"timeout\")".to_string()));
}

#[test]
fn registration_outcomes() {
    let resp = || RunnerRegistrationResponse { url: "https://u".to_string(), token: "t1".to_string() };
    assert_eq!(registration_token(Ok(resp())), Ok("t1".to_string()));
    assert_eq!(
        registration_command(Ok(resp())),
        Ok("runner configure --token \"t1\" --url \"https://u\"".to_string())
    );
    assert_eq!(
        registration_token(Err(Error::Unauthorized)),
        Err("Failed to create runner registration: Unauthorized".to_string())
    );
    assert_eq!(
        registration_command(Err(Error::NotFound)),
        Err("Failed to create runner registration: NotFound".to_string())
    );
}

#[test]
fn delete_job_conflict_is_bare() {
    let client = FakeClient::answering(Some(Error::Conflict));
    assert_eq!(job_delete(&client, 1), Err("failed to delete job: Conflict".to_string()));
}
