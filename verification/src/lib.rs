//! A client library for a remote file-analysis service. The core is the
//! exact description of every request the service understands: how the
//! API key is resolved, what the two headers of every call hold, which
//! path and JSON body each endpoint takes, how an uploaded file's part is
//! named, and what a response means. A thin blocking shell performs the
//! planned requests; everything it sends and everything it concludes from
//! a response is computed and proved here.

pub mod client;
pub mod errors;
pub mod json;
pub mod response;
pub mod upload;

use vstd::prelude::*;

verus! {

/// The version string advertised in the `User-Agent` header.
pub fn sdk_version() -> (r: &'static str)
    ensures
        r@ == "0.0.0.1"@,
{
    "0.0.0.1"
}

} // verus!
