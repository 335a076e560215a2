//! What the path resolver decides from what the filesystem reported.

use vstd::prelude::*;
use crate::error::EmbedError;

verus! {

/// What came of making the path canonical against the base directory, which
/// is the working directory of the build.
#[derive(Clone, Debug)]
pub enum Resolution {
    /// Nothing exists at the path.
    Missing,
    /// The path could not be made canonical for another reason.
    Unreachable,
    /// The path is canonical and names something.
    Found {
        /// The absolute, canonical path.
        path: String,
        /// Whether it names a regular file.
        regular_file: bool,
    },
}

/// The path names a regular file.
pub open spec fn names_regular_file(outcome: Resolution) -> bool {
    match outcome {
        Resolution::Found { regular_file, .. } => regular_file,
        _ => false,
    }
}

/// The path names something that is not a regular file, such as a directory.
pub open spec fn names_no_regular_file(outcome: Resolution) -> bool {
    match outcome {
        Resolution::Found { regular_file, .. } => !regular_file,
        _ => false,
    }
}

/// The resolved path, or the kind of failure that the outcome stands for.
pub open spec fn resolved(outcome: Resolution) -> Result<Seq<char>, EmbedError> {
    match outcome {
        Resolution::Missing => Err(EmbedError::PathNotFound),
        Resolution::Unreachable => Err(EmbedError::PathCanonicalizationFailed),
        Resolution::Found { path, regular_file } => if regular_file {
            Ok(path@)
        } else {
            Err(EmbedError::NotARegularFile)
        },
    }
}

/// The canonical path, where resolution got far enough to compute one.
pub open spec fn located(outcome: Resolution) -> Option<Seq<char>> {
    match outcome {
        Resolution::Found { path, .. } => Some(path@),
        _ => None,
    }
}

impl Resolution {
    /// The canonical path, where resolution got far enough to compute one,
    /// whether or not it names a regular file.
    pub fn canonical_path(&self) -> (r: Option<&str>)
        ensures
            match r {
                Some(path) => located(*self) == Some(path@),
                None => located(*self) is None,
            },
    {
        match self {
            Resolution::Found { path, .. } => Some(path.as_str()),
            _ => None,
        }
    }
}

/// Accepts a path only where it exists and names a regular file; every other
/// outcome is reported under its own kind.
pub fn resolve(outcome: Resolution) -> (r: Result<String, EmbedError>)
    ensures
        match r {
            Ok(path) => resolved(outcome) == Ok::<Seq<char>, EmbedError>(path@),
            Err(error) => resolved(outcome) == Err::<Seq<char>, EmbedError>(error),
        },
        r is Ok <==> names_regular_file(outcome),
        r == Err::<String, EmbedError>(EmbedError::PathNotFound) <==> outcome is Missing,
        r == Err::<String, EmbedError>(EmbedError::NotARegularFile) <==> names_no_regular_file(
            outcome,
        ),
        r == Err::<String, EmbedError>(EmbedError::PathCanonicalizationFailed)
            <==> outcome is Unreachable,
{
    match outcome {
        Resolution::Missing => Err(EmbedError::PathNotFound),
        Resolution::Unreachable => Err(EmbedError::PathCanonicalizationFailed),
        Resolution::Found { path, regular_file } => {
            if regular_file {
                Ok(path)
            } else {
                Err(EmbedError::NotARegularFile)
            }
        },
    }
}

} // verus!
