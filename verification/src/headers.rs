//! Model of the response headers that the negotiation logic reads: the raw
//! authentication-challenge header, the parsed content length, and whether
//! the server advertises byte-range support.

use vstd::prelude::*;
use crate::Bytes;

verus! {

/// The header fields of an HTTP response that this library's logic inspects.
/// The surrounding process extracts them from the real response: the
/// authentication challenge as the raw bytes of the first `WWW-Authenticate`
/// value, the content length as a parsed byte count, and the presence of an
/// `Accept-Ranges` header as a boolean.
#[derive(Clone, Debug)]
pub struct Headers {
    pub www_authenticate: Option<Vec<u8>>,
    pub content_length: Option<Bytes>,
    pub accept_ranges: bool,
}

// Traits to extend functionalities of the Headers type

pub trait HeadersSupporting {
    /// The content length these headers carry, if any.
    spec fn spec_content_length(&self) -> Option<Bytes>;

    /// Whether these headers advertise byte-range support.
    spec fn spec_supports_ranges(&self) -> bool;

    /// Function to get the content length of a remote document.
    /// The returned type is `Option<Bytes>`.
    fn get_content_length(&self) -> (r: Option<Bytes>)
        ensures
            r == self.spec_content_length(),
    ;

    /// Function to know if the server supports the AcceptRanges option.
    /// This function returns a boolean value.
    fn support_partialcontent(&self) -> (r: bool)
        ensures
            r == self.spec_supports_ranges(),
    ;
}

impl HeadersSupporting for Headers {
    open spec fn spec_content_length(&self) -> Option<Bytes> {
        self.content_length
    }

    open spec fn spec_supports_ranges(&self) -> bool {
        self.accept_ranges
    }

    /// Function to get the `content-length` container, from a given header.
    /// This function returns an Option that contains a `Bytes` type.
    fn get_content_length(&self) -> Option<Bytes> {
        self.content_length
    }

    /// Function to know if the server supports the AcceptRanges option.
    fn support_partialcontent(&self) -> bool {
        self.accept_ranges
    }
}

} // verus!
