//! The library's error type.
use vstd::prelude::*;

verus! {

/// Errors raised by the library layer. Each variant carries its message text.
#[derive(Debug)]
pub enum AppError {
    /// Audio output initialisation or decoding failed.
    Audio(String),
    /// Reading the tags of `path` failed with `message`.
    Metadata { path: String, message: String },
    /// Scanning a directory failed.
    Scan(String),
    /// File input/output failed; the text of the I/O error.
    Io(String),
    /// Any other error.
    Other(String),
}

} // verus!
