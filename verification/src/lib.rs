//! Core of a parallel HTTP range-based download engine.
//!
//! The library negotiates a transfer plan with a remote server (content
//! length, byte-range support, required authorization), partitions the
//! content into contiguous byte ranges, and writes each fetched range into
//! its correct offset of a single positional output buffer.  All decision
//! logic is verified; the surrounding process performs the actual network
//! and file I/O and feeds plain values back in.

use vstd::prelude::*;

pub mod authorization;
pub mod cargo_helper;
pub mod contentlength;
pub mod digits;
pub mod download;
pub mod filesize;
pub mod headers;
pub mod http_version;
pub mod response;
pub mod write;

verus! {

/// Represents a number of bytes, as `u64`.
pub type Bytes = u64;

} // verus!
