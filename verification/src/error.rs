//! The kinds of failure and the text that reports one.

use vstd::prelude::*;

verus! {

/// Why an embedding failed. An extension that the media-type table does not
/// know is no failure: such a file gets the fallback media type.
#[derive(Clone, Copy, Debug, PartialEq, Eq, Structural)]
pub enum EmbedError {
    /// The path names nothing.
    PathNotFound,
    /// The path names something that is not a regular file.
    NotARegularFile,
    /// The path could not be made canonical for another reason.
    PathCanonicalizationFailed,
    /// The file was found and could not be read.
    FileReadFailed,
    /// The invocation is not exactly one string literal.
    UsageError,
}

/// The words that name a kind of failure in a diagnostic.
pub open spec fn kind_text(error: EmbedError) -> Seq<char> {
    match error {
        EmbedError::PathNotFound => "path not found"@,
        EmbedError::NotARegularFile => "not a regular file"@,
        EmbedError::PathCanonicalizationFailed => "path canonicalization failed"@,
        EmbedError::FileReadFailed => "file read failed"@,
        EmbedError::UsageError => "expected exactly one string literal"@,
    }
}

/// The diagnostic for a failure: the kind, the path as it was written and,
/// where resolution got that far, the resolved path.
pub open spec fn diagnostic_text(
    error: EmbedError,
    literal: Seq<char>,
    resolved: Option<Seq<char>>,
) -> Seq<char> {
    let head = kind_text(error) + ": "@ + literal;
    match resolved {
        Some(path) => head + " (resolved to "@ + path + ")"@,
        None => head,
    }
}

impl EmbedError {
    /// The words that name this kind of failure.
    pub fn kind_name(self) -> (r: &'static str)
        ensures
            r@ == kind_text(self),
    {
        match self {
            EmbedError::PathNotFound => "path not found",
            EmbedError::NotARegularFile => "not a regular file",
            EmbedError::PathCanonicalizationFailed => "path canonicalization failed",
            EmbedError::FileReadFailed => "file read failed",
            EmbedError::UsageError => "expected exactly one string literal",
        }
    }
}

/// Writes the diagnostic that stops the build: it names the kind of failure,
/// the path as written, and the resolved path where there is one.
pub fn diagnostic(error: EmbedError, literal: &str, resolved: Option<&str>) -> (r: String)
    ensures
        r@ == diagnostic_text(
            error,
            literal@,
            match resolved {
                Some(path) => Some(path@),
                None => None,
            },
        ),
{
    let mut out = String::from_str(error.kind_name());
    out.append(": ");
    out.append(literal);
    match resolved {
        Some(path) => {
            out.append(" (resolved to ");
            out.append(path);
            out.append(")");
        },
        None => {},
    }
    out
}

} // verus!
