//! Assembly of the data URI and what its shape guarantees.

use vstd::prelude::*;
use crate::encode::{is_base64_char, is_payload};

verus! {

/// The data URI for a media type and an encoded payload.
pub open spec fn data_uri(media: Seq<char>, payload: Seq<char>) -> Seq<char> {
    "data:"@ + media + ";base64,"@ + payload
}

/// The part of a data URI that follows its header, for a media type of
/// `media_len` characters: the encoded payload.
pub open spec fn payload_segment(uri: Seq<char>, media_len: nat) -> Seq<char> {
    uri.subrange(media_len as int + 13, uri.len() as int)
}

/// A blank character: any character with the Unicode property White_Space,
/// which holds the space, the tab and the line breaks.
pub open spec fn is_blank(c: char) -> bool {
    ||| ('\u{9}' <= c && c <= '\u{D}')
    ||| c == ' '
    ||| c == '\u{85}'
    ||| c == '\u{A0}'
    ||| c == '\u{1680}'
    ||| ('\u{2000}' <= c && c <= '\u{200A}')
    ||| c == '\u{2028}'
    ||| c == '\u{2029}'
    ||| c == '\u{202F}'
    ||| c == '\u{205F}'
    ||| c == '\u{3000}'
}

/// No character of `text` is blank.
pub open spec fn has_no_blank(text: Seq<char>) -> bool {
    forall|i: int| 0 <= i < text.len() ==> !is_blank(#[trigger] text[i])
}

/// Formats `data:{media};base64,{payload}`, with nothing added.
pub fn assemble(media: &str, payload: &str) -> (r: String)
    ensures
        r@ == data_uri(media@, payload@),
{
    let mut out = String::from_str("data:");
    out.append(media);
    out.append(";base64,");
    out.append(payload);
    out
}

/// A data URI is the scheme `data:`, the media type, the marker `;base64,`
/// and the payload, in this order and with nothing between or after them.
pub proof fn lemma_uri_segments(media: Seq<char>, payload: Seq<char>)
    ensures
        data_uri(media, payload).len() == 13 + media.len() + payload.len(),
        data_uri(media, payload).subrange(0, 5) == "data:"@,
        data_uri(media, payload).subrange(5, media.len() as int + 5) == media,
        data_uri(media, payload).subrange(media.len() as int + 5, media.len() as int + 13) == ";base64,"@,
        payload_segment(data_uri(media, payload), media.len()) == payload,
{
    reveal_strlit("data:");
    reveal_strlit(";base64,");
    let uri = data_uri(media, payload);
    assert(uri.subrange(0, 5) =~= "data:"@);
    assert(uri.subrange(5, media.len() as int + 5) =~= media);
    assert(uri.subrange(media.len() as int + 5, media.len() as int + 13) =~= ";base64,"@);
    assert(uri.subrange(media.len() as int + 13, uri.len() as int) =~= payload);
}

/// Where the media type holds no blank and the payload is an encoder's
/// output, the whole data URI holds no blank, and all that follows the marker
/// is base64 characters in whole groups of four.
pub proof fn lemma_uri_format(media: Seq<char>, payload: Seq<char>)
    requires
        has_no_blank(media),
        is_payload(payload),
    ensures
        has_no_blank(data_uri(media, payload)),
        (data_uri(media, payload).len() - 13 - media.len()) % 4 == 0,
        forall|i: int|
            13 + media.len() <= i < data_uri(media, payload).len() ==> is_base64_char(
                #[trigger] data_uri(media, payload)[i],
            ),
{
    reveal_strlit("data:");
    reveal_strlit(";base64,");
    let uri = data_uri(media, payload);
    assert forall|i: int| 0 <= i < uri.len() implies !is_blank(#[trigger] uri[i]) by {
        if i < 5 {
        } else if i < 5 + media.len() {
            assert(uri[i] == media[i - 5]);
        } else if i < 13 + media.len() {
        } else {
            assert(uri[i] == payload[i - 13 - media.len()]);
            assert(is_base64_char(payload[i - 13 - media.len()]));
        }
    }
    assert forall|i: int| 13 + media.len() <= i < uri.len() implies is_base64_char(
        #[trigger] uri[i],
    ) by {
        assert(uri[i] == payload[i - 13 - media.len()]);
    }
}

} // verus!
