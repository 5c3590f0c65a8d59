//! The library's error type.

use vstd::prelude::*;

verus! {

/// What can go wrong in a request to CUPS.
#[derive(Debug)]
pub enum Error {
    /// A required handle was missing.
    NullPointer,
    /// A string meant for libcups holds a zero byte at this byte position,
    /// so it cannot be passed as a C string.
    InteriorNul(usize),
    /// A connection could not be established.
    ConnectionFailed(String),
    /// libcups refused an operation.
    UnsupportedFeature(String),
    /// The server did not answer.
    ServerError(String),
    /// A DNS-SD operation failed.
    NetworkError(String),
}

} // verus!
