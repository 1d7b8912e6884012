//! Requests, responses, and the transport failure, as the chain sees them.
//!
//! The chain reads and rewrites only a request's target; headers and body
//! travel with the transport untouched. A response is opaque to every
//! handler: it is relayed, never inspected.

use vstd::prelude::*;

verus! {

use crate::uri::Uri;

/// An inbound request, reduced to what a handler may consult: its method
/// and its target.
#[derive(Clone, PartialEq, Eq, Debug)]
pub struct Request {
    pub method: String,
    pub uri: Uri,
}

/// An upstream response. Handlers relay it unchanged; only the status and
/// body stand in for whatever the transport carries.
#[derive(Clone, PartialEq, Eq, Debug)]
pub struct Response {
    pub status: u16,
    pub body: Vec<u8>,
}

/// The failure of an outbound call: whatever the transport reported,
/// carried as text. A terminal handler surfaces it as its own failure
/// kind; decorators wrap it.
#[derive(Clone, PartialEq, Eq, Debug)]
pub struct UpstreamError {
    pub message: String,
}

} // verus!
