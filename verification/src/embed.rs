//! The embedding itself: from an invocation, a resolved path and the file's
//! bytes to the data URI, or to the first failure.

use vstd::prelude::*;
use crate::encode::{
    base64_bytes, base64_text, encodable, encode, encoded_len, is_payload, lemma_encoding_shape,
    lemma_padding, lemma_round_trip, padding_len,
};
use crate::error::{diagnostic, diagnostic_text, EmbedError};
use crate::media::{extension, infer_media_type, media_type_of, table_first};
use crate::resolve::{
    located, names_no_regular_file, names_regular_file, resolve, resolved, Resolution,
};
use crate::uri::{
    assemble, data_uri, has_no_blank, lemma_uri_format, lemma_uri_segments, payload_segment,
};

verus! {

/// One argument of an invocation, as far as its shape matters.
#[derive(Clone, Debug)]
pub enum Argument {
    /// A string literal, with its value.
    StringLiteral(String),
    /// Anything else.
    Other,
}

/// The path that an invocation names, where it is exactly one string literal.
pub open spec fn invoked_path(arguments: Seq<Argument>) -> Option<Seq<char>> {
    if arguments.len() == 1 {
        match arguments[0] {
            Argument::StringLiteral(path) => Some(path@),
            Argument::Other => None,
        }
    } else {
        None
    }
}

/// The data URI of a file with the given resolved path and bytes.
pub open spec fn embedded_uri(path: Seq<char>, content: Seq<u8>) -> Seq<char> {
    data_uri(media_type_of(path), base64_text(content))
}

/// What an embedding yields: the data URI where the path resolved to a
/// regular file and the file was read, else the first failure on the way.
pub open spec fn embedded(outcome: Resolution, read: Option<Seq<u8>>) -> Result<
    Seq<char>,
    EmbedError,
> {
    match resolved(outcome) {
        Err(error) => Err(error),
        Ok(path) => match read {
            None => Err(EmbedError::FileReadFailed),
            Some(content) => Ok(embedded_uri(path, content)),
        },
    }
}

/// The bytes of an optional buffer.
pub open spec fn bytes_of(read: Option<Vec<u8>>) -> Option<Seq<u8>> {
    match read {
        Some(content) => Some(content@),
        None => None,
    }
}

/// Accepts an invocation of exactly one string literal and gives its value;
/// any other shape is a usage error.
pub fn validate_invocation(arguments: &Vec<Argument>) -> (r: Result<&str, EmbedError>)
    ensures
        match r {
            Ok(path) => invoked_path(arguments@) == Some(path@),
            Err(error) => invoked_path(arguments@) is None && error == EmbedError::UsageError,
        },
{
    if arguments.len() != 1 {
        return Err(EmbedError::UsageError);
    }
    match &arguments[0] {
        Argument::StringLiteral(path) => Ok(path.as_str()),
        Argument::Other => Err(EmbedError::UsageError),
    }
}

/// Accepts the bytes of a file that was read; a failed read is reported as
/// such.
pub fn load(read: Option<Vec<u8>>) -> (r: Result<Vec<u8>, EmbedError>)
    ensures
        match read {
            Some(content) => r == Ok::<Vec<u8>, EmbedError>(content),
            None => r == Err::<Vec<u8>, EmbedError>(EmbedError::FileReadFailed),
        },
{
    match read {
        Some(content) => Ok(content),
        None => Err(EmbedError::FileReadFailed),
    }
}

/// Builds the data URI of a file from its resolved path and its bytes: the
/// media type comes from the path's extension, the payload is the bytes in
/// standard base64.
pub fn include_data_uri(path: &str, content: &[u8]) -> (r: String)
    requires
        encodable(content@.len()),
    ensures
        r@ == embedded_uri(path@, content@),
{
    let media = infer_media_type(path);
    let payload = encode(content);
    assemble(media.as_str(), payload.as_str())
}

/// Runs the whole embedding on what the filesystem reported: the outcome of
/// resolving the path and, where the file was read, its bytes. The first
/// failure wins, and a failure never comes with a URI.
pub fn embed(outcome: Resolution, read: Option<Vec<u8>>) -> (r: Result<String, EmbedError>)
    requires
        read matches Some(content) ==> encodable(content@.len()),
    ensures
        match r {
            Ok(uri) => embedded(outcome, bytes_of(read)) == Ok::<Seq<char>, EmbedError>(uri@),
            Err(error) => embedded(outcome, bytes_of(read)) == Err::<Seq<char>, EmbedError>(error),
        },
{
    let path = match resolve(outcome) {
        Ok(path) => path,
        Err(error) => { return Err(error); },
    };
    let content = match load(read) {
        Ok(content) => content,
        Err(error) => { return Err(error); },
    };
    Ok(include_data_uri(path.as_str(), content.as_slice()))
}

/// What the build gets: the data URI, or the diagnostic of the first failure,
/// which names its kind, the path as written and the canonical path where
/// there is one.
pub open spec fn reported(literal: Seq<char>, outcome: Resolution, read: Option<Seq<u8>>) -> Result<
    Seq<char>,
    Seq<char>,
> {
    match embedded(outcome, read) {
        Ok(uri) => Ok(uri),
        Err(error) => Err(diagnostic_text(error, literal, located(outcome))),
    }
}

/// Runs the embedding for the path written as `literal` and turns a failure
/// into the diagnostic that stops the build.
pub fn embed_or_report(literal: &str, outcome: Resolution, read: Option<Vec<u8>>) -> (r: Result<
    String,
    String,
>)
    requires
        read matches Some(content) ==> encodable(content@.len()),
    ensures
        match r {
            Ok(uri) => reported(literal@, outcome, bytes_of(read)) == Ok::<Seq<char>, Seq<char>>(
                uri@,
            ),
            Err(text) => reported(literal@, outcome, bytes_of(read)) == Err::<
                Seq<char>,
                Seq<char>,
            >(text@),
        },
{
    let canonical: Option<String> = match outcome.canonical_path() {
        Some(path) => Some(String::from_str(path)),
        None => None,
    };
    match embed(outcome, read) {
        Ok(uri) => Ok(uri),
        Err(error) => {
            let resolved: Option<&str> = match &canonical {
                Some(path) => Some(path.as_str()),
                None => None,
            };
            Err(diagnostic(error, literal, resolved))
        },
    }
}

/// Two files with the same bytes and the same media type get the same data
/// URI, whatever else differs.
pub proof fn lemma_same_content_same_uri(
    path_a: Seq<char>,
    content_a: Seq<u8>,
    path_b: Seq<char>,
    content_b: Seq<u8>,
)
    requires
        media_type_of(path_a) == media_type_of(path_b),
        content_a == content_b,
    ensures
        embedded_uri(path_a, content_a) == embedded_uri(path_b, content_b),
{
}

/// Decoding what follows the header of a file's data URI gives back the
/// bytes of the file, all of them and no others.
pub proof fn lemma_payload_decodes_to_content(path: Seq<char>, content: Seq<u8>)
    ensures
        payload_segment(embedded_uri(path, content), media_type_of(path).len()) == base64_text(
            content,
        ),
        base64_bytes(payload_segment(embedded_uri(path, content), media_type_of(path).len()))
            == content,
{
    lemma_uri_segments(media_type_of(path), base64_text(content));
    lemma_round_trip(content);
}

/// The data URI of a file is `data:`, the media type, `;base64,` and the
/// payload, with nothing else. The payload is base64 characters in whole
/// groups of four, four for every three bytes begun, with padding at its end
/// only. Where the media type holds no blank, the data URI holds none.
pub proof fn lemma_uri_is_well_formed(path: Seq<char>, content: Seq<u8>)
    ensures
        embedded_uri(path, content) == "data:"@ + media_type_of(path) + ";base64,"@ + base64_text(
            content,
        ),
        embedded_uri(path, content).len() == 13 + media_type_of(path).len() + encoded_len(
            content.len(),
        ),
        is_payload(base64_text(content)),
        forall|i: int|
            0 <= i < base64_text(content).len() ==> (#[trigger] base64_text(content)[i] == '='
                <==> i >= base64_text(content).len() - padding_len(content.len())),
        has_no_blank(media_type_of(path)) ==> has_no_blank(embedded_uri(path, content)),
{
    lemma_uri_segments(media_type_of(path), base64_text(content));
    lemma_encoding_shape(content);
    lemma_padding(content);
    if has_no_blank(media_type_of(path)) {
        lemma_uri_format(media_type_of(path), base64_text(content));
    }
}

/// A file whose extension the table does not know, or that has none, gets
/// the fallback media type, and its data URI holds no blank.
pub proof fn lemma_unknown_extension_falls_back(path: Seq<char>, content: Seq<u8>)
    requires
        match extension(path) {
            Some(ext) => table_first(ext) is None,
            None => true,
        },
    ensures
        embedded_uri(path, content) == data_uri("application/octet-stream"@, base64_text(content)),
        has_no_blank(embedded_uri(path, content)),
{
    reveal_strlit("application/octet-stream");
    lemma_encoding_shape(content);
    lemma_uri_format(media_type_of(path), base64_text(content));
}

/// A path that names nothing always fails as not found, and a path that names
/// something other than a regular file always fails as not a regular file,
/// whatever was read.
pub proof fn lemma_unusable_path_fails(outcome: Resolution, read: Option<Seq<u8>>)
    ensures
        outcome is Missing ==> embedded(outcome, read) == Err::<Seq<char>, EmbedError>(
            EmbedError::PathNotFound,
        ),
        names_no_regular_file(outcome) ==> embedded(outcome, read) == Err::<Seq<char>, EmbedError>(
            EmbedError::NotARegularFile,
        ),
        embedded(outcome, read) is Ok <==> (names_regular_file(outcome) && read is Some),
{
}

} // verus!
