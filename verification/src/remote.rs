//! The remote telemetry surface, as the engine addresses it: the
//! path suffixes joined onto the configured endpoint for the ping,
//! log-push, upload and shutdown calls. The calls themselves are
//! plain synchronous requests made by the surrounding application
//! code.

use vstd::prelude::*;
use vstd::string::StringExecFns;

verus! {

/// The liveness-ping path.
pub fn ping_suffix() -> (r: String)
    ensures
        r@ == "ping"@,
{
    String::from_str("ping")
}

/// The log-push path.
pub fn log_suffix() -> (r: String)
    ensures
        r@ == "log/"@,
{
    String::from_str("log/")
}

/// The upload path for one archive.
pub fn upload_suffix(filename: &str) -> (r: String)
    ensures
        r@ == "upload/"@ + filename@,
{
    let mut r = String::from_str("upload/");
    r.append(filename);
    r
}

/// The shutdown path: code zero reports a successful sweep, code one
/// a failed one.
pub fn shutdown_suffix(success: bool) -> (r: String)
    ensures
        success ==> r@ == "shutdown/0"@,
        !success ==> r@ == "shutdown/1"@,
{
    if success {
        String::from_str("shutdown/0")
    } else {
        String::from_str("shutdown/1")
    }
}

} // verus!
