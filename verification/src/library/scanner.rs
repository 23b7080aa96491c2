//! Which files a directory scan keeps.
use vstd::prelude::*;

use crate::text::{lowercase, text_eq, to_lowercase};

verus! {

/// Whether a file extension names a supported audio format: `mp3` or `flac`,
/// in any letter case.
pub open spec fn supported_extension(ext: Seq<char>) -> bool {
    lowercase(ext) == "mp3"@ || lowercase(ext) == "flac"@
}

/// Whether a file with extension `ext` is kept by the scan.
pub fn is_supported_extension(ext: &str) -> (r: bool)
    ensures
        r == supported_extension(ext@),
{
    let lower = to_lowercase(ext);
    text_eq(lower.as_str(), "mp3") || text_eq(lower.as_str(), "flac")
}

} // verus!
