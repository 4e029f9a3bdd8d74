//! Model of an HTTP response: protocol version, status code, and the
//! header fields the logic reads.

use vstd::prelude::*;
use crate::headers::Headers;
use crate::http_version::HttpVersion;

verus! {

/// The HTTP status code that signals a partial-content (byte-range) answer.
pub const PARTIAL_CONTENT_STATUS: u16 = 206;

/// The parts of an HTTP response that the negotiation and fetch logic
/// inspect.  The surrounding process builds one from each real response.
#[derive(Clone, Debug)]
pub struct Response {
    pub version: HttpVersion,
    pub status: u16,
    pub headers: Headers,
}

/// True when the response answers a byte-range request with the
/// partial-content status.
pub open spec fn spec_is_partial_content(r: Response) -> bool {
    r.status == PARTIAL_CONTENT_STATUS
}

pub trait CheckResponseStatus {
    /// Whether this response carries the partial-content status.
    spec fn spec_partial_content(&self) -> bool;

    /// Function to check if the `PartialContent` status is contained
    /// in the HTTP header response
    fn check_partialcontent_status(&self) -> (r: bool)
        ensures
            r == self.spec_partial_content(),
    ;
}

impl CheckResponseStatus for Response {
    open spec fn spec_partial_content(&self) -> bool {
        spec_is_partial_content(*self)
    }

    fn check_partialcontent_status(&self) -> bool {
        self.status == PARTIAL_CONTENT_STATUS
    }
}

} // verus!
