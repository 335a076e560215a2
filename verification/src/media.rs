//! Media type of a file, inferred from the extension of its path.

use vstd::prelude::*;

verus! {

/// The first media type that the `mime_guess` table lists for an extension,
/// if it lists any.
pub uninterp spec fn table_first(extension: Seq<char>) -> Option<Seq<char>>;

/// The media type of a file whose extension the table does not know.
pub open spec fn fallback_media_type() -> Seq<char> {
    "application/octet-stream"@
}

/// The views of an optional string.
pub open spec fn text_of(text: Option<String>) -> Option<Seq<char>> {
    match text {
        Some(s) => Some(s@),
        None => None,
    }
}

/// The views of an optional string slice.
pub open spec fn slice_text_of(text: Option<&str>) -> Option<Seq<char>> {
    match text {
        Some(s) => Some(s@),
        None => None,
    }
}

/// `dot` is the place of the full stop that starts the extension: the last
/// one of the path, with no `/` after it, and not the first character of the
/// final component.
pub open spec fn extension_at(path: Seq<char>, dot: int) -> bool {
    &&& 0 < dot < path.len()
    &&& path[dot] == '.'
    &&& path[dot - 1] != '/'
    &&& forall|j: int| dot < j < path.len() ==> #[trigger] path[j] != '.' && path[j] != '/'
}

/// The extension of the path's final component, which is what follows the
/// last `/`: the text after its last full stop. A component without a full
/// stop, or whose only full stop is its first character, has none.
pub open spec fn extension(path: Seq<char>) -> Option<Seq<char>> {
    if exists|dot: int| extension_at(path, dot) {
        let dot = choose|dot: int| extension_at(path, dot);
        Some(path.subrange(dot + 1, path.len() as int))
    } else {
        None
    }
}

/// The policy for an extension that the table does not know: the first
/// candidate where there is one, the fallback where there is none.
pub open spec fn chosen_media_type(candidate: Option<Seq<char>>) -> Seq<char> {
    match candidate {
        Some(media) => media,
        None => fallback_media_type(),
    }
}

/// The media type of the file at `path`.
pub open spec fn media_type_of(path: Seq<char>) -> Seq<char> {
    match extension(path) {
        Some(ext) => chosen_media_type(table_first(ext)),
        None => fallback_media_type(),
    }
}

/// A path has at most one place where its extension starts.
pub proof fn lemma_extension_unique(path: Seq<char>, a: int, b: int)
    requires
        extension_at(path, a),
        extension_at(path, b),
    ensures
        a == b,
{
    if a < b {
        assert(path[b] == '.');
    } else if b < a {
        assert(path[a] == '.');
    }
}

/// Finds the extension of the path's final component.
pub fn extension_of(path: &str) -> (r: Option<&str>)
    ensures
        slice_text_of(r) == extension(path@),
{
    let n: usize = path.unicode_len();
    let mut i: usize = n;
    while i > 0
        invariant
            i <= n,
            n == path@.len(),
            forall|j: int| i <= j < n ==> #[trigger] path@[j] != '.' && path@[j] != '/',
        decreases i,
    {
        let c = path.get_char(i - 1);
        if c == '/' {
            assert forall|d: int| !extension_at(path@, d) by {
                if extension_at(path@, d) {
                    if d < i - 1 {
                        assert(path@[i - 1] == '/');
                    } else if d > i - 1 {
                        assert(path@[d] == '.');
                    }
                }
            }
            return None;
        }
        if c == '.' {
            if i - 1 == 0 || path.get_char(i - 2) == '/' {
                assert forall|d: int| !extension_at(path@, d) by {
                    if extension_at(path@, d) {
                        if d < i - 1 {
                            assert(path@[i - 1] == '.');
                        } else if d > i - 1 {
                            assert(path@[d] == '.');
                        }
                    }
                }
                return None;
            }
            let ext = path.substring_char(i, n);
            proof {
                assert(extension_at(path@, i - 1));
                let d = choose|d: int| extension_at(path@, d);
                lemma_extension_unique(path@, d, i - 1);
            }
            return Some(ext);
        }
        i -= 1;
    }
    assert forall|d: int| !extension_at(path@, d) by {
        if extension_at(path@, d) {
            assert(path@[d] == '.');
        }
    }
    None
}

/// Calls `mime_guess::from_ext` and `MimeGuess::first` of the `mime_guess`
/// crate, and gives the media type as text.
///
/// Trusted: the result is named `table_first`. The lookup reads a table that
/// is compiled into the crate and nothing else, and ignores the case of the
/// extension. `first` parses the table's first entry for the extension, which
/// puts it in lower case, and would panic on an entry that is no media type;
/// the crate's own tests parse every entry of the table.
#[verifier::external_body]
pub(crate) fn first_in_table(extension: &str) -> (r: Option<String>)
    ensures
        text_of(r) == table_first(extension@),
{
    match mime_guess::from_ext(extension).first() {
        Some(media) => Some(media.to_string()),
        None => None,
    }
}

/// Applies the policy on absent media types: the candidate where there is
/// one, `application/octet-stream` where there is none.
pub fn choose_media_type(candidate: Option<String>) -> (r: String)
    ensures
        r@ == chosen_media_type(text_of(candidate)),
{
    match candidate {
        Some(media) => media,
        None => String::from_str("application/octet-stream"),
    }
}

/// Infers the media type of the file at `path` from its extension alone.
pub fn infer_media_type(path: &str) -> (r: String)
    ensures
        r@ == media_type_of(path@),
{
    match extension_of(path) {
        Some(ext) => choose_media_type(first_in_table(ext)),
        None => choose_media_type(None),
    }
}

} // verus!
