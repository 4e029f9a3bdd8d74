//! Model of the HTTP protocol version reported by a response, and the
//! check that the version is recent enough for byte-range downloads.

use vstd::prelude::*;

verus! {

/// The HTTP protocol versions a response can carry.
#[derive(Clone, Copy, PartialEq, Eq, Structural, Debug)]
pub enum HttpVersion {
    Http09,
    Http10,
    Http11,
    Http20,
}

/// True when `v` is at least HTTP/1.1, the first version with byte-range
/// request support.
pub open spec fn spec_supports_ranges(v: HttpVersion) -> bool {
    v is Http11 || v is Http20
}

/// Trait used to check HTTP Version
///
/// This trait is used to validate that a given HTTP Version match specific need.
pub trait ValidateHttpVersion {
    /// Validate that the current HttpVersion is at least 1.1 to be able to download chunks.
    fn greater_than_http_11(&self) -> bool;
}

impl ValidateHttpVersion for HttpVersion {
    /// Check the given HttpVersion.
    ///
    /// This version should be at least 1.1 to allow chunks downloading.
    fn greater_than_http_11(&self) -> (r: bool)
        ensures
            r == spec_supports_ranges(*self),
    {
        match self {
            HttpVersion::Http09 => false,
            HttpVersion::Http10 => false,
            HttpVersion::Http11 => true,
            HttpVersion::Http20 => true,
        }
    }
}

} // verus!
