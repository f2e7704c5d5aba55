use vstd::prelude::*;

use crate::errors::Errcode;

verus! {

/// The service that starts containers on request.
#[derive(Debug, Default)]
pub struct RustualizeApi {}

/// The answer to a request to start a container.
pub struct StartContainerResponse {
    pub code: String,
}

/// The text that answers a run that ended well.
pub open spec fn success_text() -> Seq<char> {
    "Exit without any error, returning 0"@
}

/// The text that answers a run that ended in an error.
pub open spec fn failure_text() -> Seq<char> {
    "Error on exit: \n\t{} \n\tReturning {retcode not found}"@
}

impl RustualizeApi {
    /// The answer to a start request whose run ended with `outcome`: the
    /// request itself is always answered, with a text that tells whether the
    /// run succeeded.
    pub fn start_response(&self, outcome: &Result<(), Errcode>) -> (r: StartContainerResponse)
        ensures
            r.code@ == (if outcome is Ok {
                success_text()
            } else {
                failure_text()
            }),
    {
        match outcome {
            Ok(_) => StartContainerResponse {
                code: String::from_str("Exit without any error, returning 0"),
            },
            Err(_) => StartContainerResponse {
                code: String::from_str("Error on exit: \n\t{} \n\tReturning {retcode not found}"),
            },
        }
    }
}

} // verus!
