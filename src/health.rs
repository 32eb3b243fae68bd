//! Health probing of the backend: where to ask, and how to read the answer.

use vstd::prelude::*;
use crate::decimal::{decimal, push_decimal};

verus! {

/// The backend's health endpoint on `port`.
pub open spec fn health_url_spec(port: u16) -> Seq<char> {
    "http://127.0.0.1:"@ + decimal(port as nat) + "/status"@
}

/// An HTTP status code in the success class (2xx).
pub open spec fn is_success_status(code: u16) -> bool {
    200 <= code < 300
}

/// Whether a probe found the backend healthy: `probe` is the status code of
/// the response, or `None` when no response came (refused, timed out, ...).
pub open spec fn healthy_spec(probe: Option<u16>) -> bool {
    match probe {
        Some(code) => is_success_status(code),
        None => false,
    }
}

/// The URL that a health probe requests for the backend on `port`.
pub fn health_url(port: u16) -> (r: String)
    ensures
        r@ == health_url_spec(port),
{
    let mut url = String::from_str("http://127.0.0.1:");
    push_decimal(&mut url, port);
    url.append("/status");
    assert(url@ =~= health_url_spec(port));
    url
}

/// Reads the outcome of one probe: healthy only when a response came and
/// its status is a success. A failure to connect is no error, only `false`.
pub fn health_from_probe(probe: Option<u16>) -> (r: bool)
    ensures
        r == healthy_spec(probe),
{
    match probe {
        Some(code) => 200 <= code && code < 300,
        None => false,
    }
}

} // verus!
