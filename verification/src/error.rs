//! The crate-wide error: a file-tree failure or a pattern failure.

use vstd::prelude::*;

use crate::matcher::MatcherError;
use crate::transform::FileError;

verus! {

/// Any failure the engine can report.
#[derive(Debug, PartialEq, Eq, Clone)]
pub enum Error {
    FileUtils(FileError),
    Matcher(MatcherError),
}

impl From<FileError> for Error {
    fn from(e: FileError) -> (r: Error) {
        Error::FileUtils(e)
    }
}

impl vstd::std_specs::convert::FromSpecImpl<FileError> for Error {
    open spec fn obeys_from_spec() -> bool {
        true
    }

    open spec fn from_spec(e: FileError) -> Error {
        Error::FileUtils(e)
    }
}

impl From<MatcherError> for Error {
    fn from(e: MatcherError) -> (r: Error) {
        Error::Matcher(e)
    }
}

impl vstd::std_specs::convert::FromSpecImpl<MatcherError> for Error {
    open spec fn obeys_from_spec() -> bool {
        true
    }

    open spec fn from_spec(e: MatcherError) -> Error {
        Error::Matcher(e)
    }
}

} // verus!
