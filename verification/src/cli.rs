//! Command-line arguments and their validation.
use vstd::prelude::*;

use crate::error::AppError;
use crate::text::{push_str, text_eq};

verus! {

/// `Path::exists` for the text of a path. It depends on the file system, so
/// nothing is stated of it.
#[verifier::external_body]
fn dir_exists(path: &str) -> bool {
    std::path::Path::new(path).exists()
}

/// Command-line arguments of the player.
#[derive(Debug)]
pub struct Args {
    /// Music directory to scan.
    pub dir: String,
    /// Output format for `--list`: `text` or `json`.
    pub format: String,
    /// List the tracks only, without the interface.
    pub list: bool,
}

/// The message for a missing directory.
pub open spec fn missing_dir_message(dir: Seq<char>) -> Seq<char> {
    "directory not found: '"@ + dir + "'"@
}

/// The message for an unknown output format.
pub open spec fn bad_format_message(format: Seq<char>) -> Seq<char> {
    "unsupported format: '"@ + format + "' (expected 'text' or 'json')"@
}

/// The error `validate` reports, given whether the directory exists.
pub open spec fn args_error(dir: Seq<char>, format: Seq<char>, exists: bool) -> Option<Seq<char>> {
    if !exists {
        Some(missing_dir_message(dir))
    } else if format == "text"@ || format == "json"@ {
        None
    } else {
        Some(bad_format_message(format))
    }
}

/// The result for an error message: `Other` with that text, or success.
pub open spec fn checked(e: Option<Seq<char>>, r: Result<(), AppError>) -> bool {
    match e {
        None => r is Ok,
        Some(m) => r matches Err(AppError::Other(t)) && t@ == m,
    }
}

impl Args {
    /// The checks of `validate` once the directory's existence is known: the
    /// directory must exist, and the format must be `text` or `json`.
    pub fn check(&self, dir_exists: bool) -> (r: Result<(), AppError>)
        ensures
            checked(args_error(self.dir@, self.format@, dir_exists), r),
    {
        if !dir_exists {
            let mut m = String::new();
            push_str(&mut m, "directory not found: '");
            push_str(&mut m, self.dir.as_str());
            push_str(&mut m, "'");
            assert(m@ =~= missing_dir_message(self.dir@));
            return Err(AppError::Other(m));
        }
        if text_eq(self.format.as_str(), "text") || text_eq(self.format.as_str(), "json") {
            Ok(())
        } else {
            let mut m = String::new();
            push_str(&mut m, "unsupported format: '");
            push_str(&mut m, self.format.as_str());
            push_str(&mut m, "' (expected 'text' or 'json')");
            assert(m@ =~= bad_format_message(self.format@));
            Err(AppError::Other(m))
        }
    }

    /// Checks that the directory exists and that the format is known.
    pub fn validate(&self) -> (r: Result<(), AppError>)
        ensures
            checked(args_error(self.dir@, self.format@, true), r) || checked(
                args_error(self.dir@, self.format@, false),
                r,
            ),
    {
        let exists = dir_exists(self.dir.as_str());
        self.check(exists)
    }
}

} // verus!
