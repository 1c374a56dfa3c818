use vstd::prelude::*;

use crate::error::Error;
use crate::input::Inputs;
use crate::request::RunnerRegistrationResponse;

verus! {

/// The eight operations that the commands need from the service. Each one
/// blocks until the exchange is over, makes one attempt and keeps nothing
/// between calls. `Stream` is the byte source of a download, handed to the
/// caller unread; `LocalFile` is an open file that an upload consumes.
pub trait Client {
    type Stream;

    type LocalFile;

    fn download_job_artifact(&self, job_id: u128, name: &str) -> Result<Self::Stream, Error>;

    fn delete_job_artifact(&self, job_id: u128, name: &str) -> Result<(), Error>;

    fn delete_job(&self, job_id: u128) -> Result<(), Error>;

    fn dispatch_scan(
        &self,
        workflow_id: u128,
        scan_name: String,
        inputs: Option<Inputs>,
    ) -> Result<(), Error>;

    fn download_blob_file(&self, path: &str) -> Result<Self::Stream, Error>;

    fn upload_blob_file(&self, file: Self::LocalFile, dst: &str) -> Result<(), Error>;

    fn create_runner_registration(&self) -> Result<RunnerRegistrationResponse, Error>;

    fn create_bhlast_domain(&self) -> Result<String, Error>;
}

} // verus!
