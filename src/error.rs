use vstd::prelude::*;

verus! {

/// The ways a run can fail.
#[derive(Debug, Clone, Copy, PartialEq, Eq, Structural)]
pub enum ComicError {
    /// The command-line arguments are malformed.
    Usage,
    /// A connection could not be made, or it timed out.
    Network,
    /// The metadata endpoint answered with a non-success status.
    Http(u16),
    /// The response body is not JSON, or lacks a required field.
    Decode,
    /// The image URL does not parse, or yields no file name.
    InvalidUrl,
    /// The image could not be written to disk.
    Io,
}

} // verus!
