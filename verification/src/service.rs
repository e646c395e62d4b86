//! A sample operation to put behind a breaker: one that fails every other second.

use vstd::prelude::*;
use vstd::string::StringExecFns;

verus! {

/// The failure of the sample operation.
#[derive(Debug, PartialEq, Eq)]
pub struct ServiceError {
    pub message: String,
}

/// The sample operation at `in_sec` seconds since the epoch: it fails with
/// the message `service failed` in every even second and answers `Success!`
/// in every odd one.
pub fn unreliable_service(in_sec: u64) -> (res: Result<String, ServiceError>)
    ensures
        in_sec % 2 == 0 ==> (res matches Err(e) && e.message@ == "service failed"@),
        in_sec % 2 != 0 ==> (res matches Ok(text) && text@ == "Success!"@),
{
    if in_sec % 2 == 0 {
        Err(ServiceError { message: String::from_str("service failed") })
    } else {
        Ok(String::from_str("Success!"))
    }
}

} // verus!
