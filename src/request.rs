use vstd::prelude::*;
use vstd::string::*;

use crate::input::{
    collect_inputs, inputs_of, opt_views_of, InputError, InputFault, InputVal, Inputs,
};
use crate::validation::{is_scan_name, valid_scan_name};

verus! {

/// The body of a scan dispatch: the scan to run and its workflow variables,
/// absent when none were given.
#[derive(Debug, PartialEq, Eq)]
pub struct DispatchScanRequest {
    pub scan_name: String,
    pub inputs: Option<Inputs>,
}

/// What a dispatch of `scan_name` with the given variable tokens sends, or
/// the local error that stops it before any network call.
pub open spec fn dispatch_of(
    scan_name: Seq<char>,
    strings: Option<Seq<Seq<char>>>,
    bools: Option<Seq<Seq<char>>>,
) -> Result<Option<Map<Seq<char>, InputVal>>, InputFault> {
    if !is_scan_name(scan_name) {
        Err(InputFault::InvalidScanName(scan_name))
    } else {
        inputs_of(strings, bools)
    }
}

/// Builds the body of a scan dispatch from the command line: the scan name
/// must be valid, and the variable tokens are coerced as `collect_inputs`
/// does. Nothing here touches the network.
pub fn prepare_dispatch(
    scan_name: String,
    input_string: Option<Vec<String>>,
    input_bool: Option<Vec<String>>,
) -> (r: Result<DispatchScanRequest, InputError>)
    ensures
        match r {
            Ok(req) => req.scan_name@ == scan_name@ && match req.inputs {
                None => dispatch_of(scan_name@, opt_views_of(input_string), opt_views_of(input_bool))
                    == Ok::<_, InputFault>(None::<Map<Seq<char>, InputVal>>),
                Some(m) => dispatch_of(
                    scan_name@,
                    opt_views_of(input_string),
                    opt_views_of(input_bool),
                ) == Ok::<_, InputFault>(Some(m.view_map())),
            },
            Err(e) => dispatch_of(scan_name@, opt_views_of(input_string), opt_views_of(input_bool))
                == Err::<Option<Map<Seq<char>, InputVal>>, _>(e@),
        },
{
    if !valid_scan_name(scan_name.as_str()) {
        return Err(InputError::InvalidScanName(scan_name));
    }
    match collect_inputs(input_string, input_bool) {
        Ok(inputs) => Ok(DispatchScanRequest { scan_name, inputs }),
        Err(e) => Err(e),
    }
}

/// The body of a request for an upload URL: where the blob is to be stored.
#[derive(Debug, Clone, PartialEq, Eq)]
pub struct UploadBlobFileRequest {
    pub path: String,
}

/// What the server hands back for a new runner registration.
#[derive(Debug, Clone, PartialEq, Eq)]
pub struct RunnerRegistrationResponse {
    pub url: String,
    pub token: String,
}

impl RunnerRegistrationResponse {
    /// The command that registers a runner with this token and URL.
    pub fn command_line(&self) -> (r: String)
        ensures
            r@ == "runner configure --token \""@ + self.token@ + "\" --url \""@ + self.url@ + "\""@,
    {
        "runner configure --token \"".to_owned().concat(self.token.as_str()).concat(
            "\" --url \"",
        ).concat(self.url.as_str()).concat("\"")
    }
}

} // verus!
