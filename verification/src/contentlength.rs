//! Reading the content length out of a set of response headers.

use vstd::prelude::*;
use crate::Bytes;
use crate::headers::Headers;

verus! {

/// Trait to extend functionalities of the Headers type
pub trait GetContentLength {
    /// The content length these headers carry, if any.
    spec fn spec_length(&self) -> Option<Bytes>;

    /// Function to get the content length of a remote document.
    /// The returned type is `Option<Bytes>`.
    fn get_content_length(&self) -> (r: Option<Bytes>)
        ensures
            r == self.spec_length(),
    ;
}

impl GetContentLength for Headers {
    open spec fn spec_length(&self) -> Option<Bytes> {
        self.content_length
    }

    /// Function to get the `content-length` container, from a given header.
    /// This function returns an Option that contains a `Bytes` type.
    fn get_content_length(&self) -> Option<Bytes> {
        self.content_length
    }
}

} // verus!
