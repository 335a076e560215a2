//! Standard base64 (RFC 4648, with padding, without line breaks): what the
//! encoding of a byte sequence is, and what decoding gives back.

use vstd::prelude::*;

verus! {

/// The standard alphabet: the symbol for each value from 0 to 63.
pub open spec fn alphabet() -> Seq<char> {
    "ABCDEFGHIJKLMNOPQRSTUVWXYZabcdefghijklmnopqrstuvwxyz0123456789+/"@
}

/// The symbol that stands for the six-bit value `v`.
pub open spec fn symbol(v: int) -> char {
    alphabet()[v]
}

/// The six-bit value that a symbol of the alphabet stands for.
pub open spec fn value(c: char) -> int {
    if 'A' <= c && c <= 'Z' {
        c as int - 'A' as int
    } else if 'a' <= c && c <= 'z' {
        c as int - 'a' as int + 26
    } else if '0' <= c && c <= '9' {
        c as int - '0' as int + 52
    } else if c == '+' {
        62
    } else {
        63
    }
}

/// A character of the standard base64 alphabet, or the padding character.
pub open spec fn is_base64_char(c: char) -> bool {
    ||| ('A' <= c && c <= 'Z')
    ||| ('a' <= c && c <= 'z')
    ||| ('0' <= c && c <= '9')
    ||| c == '+'
    ||| c == '/'
    ||| c == '='
}

/// The four characters for a group of one, two or three bytes: the bits of
/// the bytes in groups of six, high bits first, missing bits taken as zero,
/// and `=` in place of each symbol that holds no bit of the group.
pub open spec fn encode_group(group: Seq<u8>) -> Seq<char>
    recommends
        1 <= group.len() <= 3,
{
    let b0 = group[0] as int;
    let b1 = if group.len() > 1 { group[1] as int } else { 0 };
    let b2 = if group.len() > 2 { group[2] as int } else { 0 };
    seq![
        symbol(b0 / 4),
        symbol((b0 % 4) * 16 + b1 / 16),
        if group.len() > 1 { symbol((b1 % 16) * 4 + b2 / 64) } else { '=' },
        if group.len() > 2 { symbol(b2 % 64) } else { '=' },
    ]
}

/// The standard base64 encoding of `bytes`, with padding.
pub open spec fn base64_text(bytes: Seq<u8>) -> Seq<char>
    decreases bytes.len(),
{
    if bytes.len() == 0 {
        Seq::empty()
    } else if bytes.len() <= 3 {
        encode_group(bytes)
    } else {
        encode_group(bytes.take(3)) + base64_text(bytes.skip(3))
    }
}

/// The bytes that four characters of an encoding stand for.
pub open spec fn decode_group(quad: Seq<char>) -> Seq<u8>
    recommends
        quad.len() == 4,
{
    let s0 = value(quad[0]);
    let s1 = value(quad[1]);
    let s2 = value(quad[2]);
    let s3 = value(quad[3]);
    let b0 = (s0 * 4 + s1 / 16) as u8;
    let b1 = ((s1 % 16) * 16 + s2 / 4) as u8;
    let b2 = ((s2 % 4) * 64 + s3) as u8;
    if quad[2] == '=' {
        seq![b0]
    } else if quad[3] == '=' {
        seq![b0, b1]
    } else {
        seq![b0, b1, b2]
    }
}

/// The bytes that a padded base64 text stands for.
pub open spec fn base64_bytes(text: Seq<char>) -> Seq<u8>
    decreases text.len(),
{
    if text.len() < 4 {
        Seq::empty()
    } else {
        decode_group(text.take(4)) + base64_bytes(text.skip(4))
    }
}

/// The number of characters in the padded encoding of `n` bytes.
pub open spec fn encoded_len(n: nat) -> nat {
    4 * ((n + 2) / 3)
}

/// Whether the encoding of `n` bytes can be held in a `String`.
pub open spec fn encodable(n: nat) -> bool {
    encoded_len(n) <= usize::MAX
}

/// A payload as the encoder writes it: whole groups of four characters, each
/// from the standard alphabet or the padding character.
pub open spec fn is_payload(text: Seq<char>) -> bool {
    &&& text.len() % 4 == 0
    &&& forall|i: int| 0 <= i < text.len() ==> is_base64_char(#[trigger] text[i])
}

/// Every symbol of the alphabet is a base64 character other than the padding
/// character, and stands for its own place in the alphabet.
pub proof fn lemma_symbol(v: int)
    requires
        0 <= v < 64,
    ensures
        is_base64_char(symbol(v)),
        symbol(v) != '=',
        value(symbol(v)) == v,
{
    reveal_strlit("ABCDEFGHIJKLMNOPQRSTUVWXYZabcdefghijklmnopqrstuvwxyz0123456789+/");
}

/// A group of bytes is encoded as four base64 characters, from which
/// decoding gives the group back.
pub proof fn lemma_group_round_trip(group: Seq<u8>)
    requires
        1 <= group.len() <= 3,
    ensures
        encode_group(group).len() == 4,
        is_payload(encode_group(group)),
        decode_group(encode_group(group)) == group,
{
    let b0 = group[0] as int;
    let b1 = if group.len() > 1 { group[1] as int } else { 0 };
    let b2 = if group.len() > 2 { group[2] as int } else { 0 };
    lemma_symbol(b0 / 4);
    lemma_symbol((b0 % 4) * 16 + b1 / 16);
    lemma_symbol((b1 % 16) * 4 + b2 / 64);
    lemma_symbol(b2 % 64);
    assert(decode_group(encode_group(group)) =~= group);
}

/// An encoding has four characters for every three bytes begun, all of them
/// base64 characters.
pub proof fn lemma_encoding_shape(bytes: Seq<u8>)
    ensures
        base64_text(bytes).len() == encoded_len(bytes.len()),
        is_payload(base64_text(bytes)),
    decreases bytes.len(),
{
    if bytes.len() == 0 {
    } else if bytes.len() <= 3 {
        lemma_group_round_trip(bytes);
    } else {
        lemma_group_round_trip(bytes.take(3));
        lemma_encoding_shape(bytes.skip(3));
    }
}

/// The number of padding characters at the end of the encoding of `n` bytes.
pub open spec fn padding_len(n: nat) -> nat {
    if n % 3 == 0 {
        0
    } else {
        (3 - n % 3) as nat
    }
}

/// Padding stands at the end of an encoding and nowhere else: one `=` for a
/// last group of two bytes, two for a last group of one byte.
pub proof fn lemma_padding(bytes: Seq<u8>)
    ensures
        forall|i: int|
            0 <= i < base64_text(bytes).len() ==> (#[trigger] base64_text(bytes)[i] == '=' <==> i
                >= base64_text(bytes).len() - padding_len(bytes.len())),
    decreases bytes.len(),
{
    let text = base64_text(bytes);
    lemma_encoding_shape(bytes);
    if bytes.len() == 0 {
    } else if bytes.len() <= 3 {
        let b0 = bytes[0] as int;
        let b1 = if bytes.len() > 1 { bytes[1] as int } else { 0 };
        let b2 = if bytes.len() > 2 { bytes[2] as int } else { 0 };
        lemma_symbol(b0 / 4);
        lemma_symbol((b0 % 4) * 16 + b1 / 16);
        lemma_symbol((b1 % 16) * 4 + b2 / 64);
        lemma_symbol(b2 % 64);
    } else {
        let head = bytes.take(3);
        let tail = base64_text(bytes.skip(3));
        lemma_symbol(head[0] as int / 4);
        lemma_symbol((head[0] as int % 4) * 16 + head[1] as int / 16);
        lemma_symbol((head[1] as int % 16) * 4 + head[2] as int / 64);
        lemma_symbol(head[2] as int % 64);
        lemma_group_round_trip(head);
        lemma_padding(bytes.skip(3));
        lemma_encoding_shape(bytes.skip(3));
        assert forall|i: int| 0 <= i < text.len() implies (#[trigger] text[i] == '=' <==> i
            >= text.len() - padding_len(bytes.len())) by {
            if i >= 4 {
                assert(text[i] == tail[i - 4]);
            }
        }
    }
}

/// Decoding the encoding of a byte sequence gives the byte sequence back.
pub proof fn lemma_round_trip(bytes: Seq<u8>)
    ensures
        base64_bytes(base64_text(bytes)) == bytes,
    decreases bytes.len(),
{
    let text = base64_text(bytes);
    if bytes.len() == 0 {
        assert(bytes =~= Seq::<u8>::empty());
    } else if bytes.len() <= 3 {
        lemma_group_round_trip(bytes);
        assert(text.take(4) =~= text);
        assert(text.skip(4) =~= Seq::<char>::empty());
        assert(base64_bytes(text.skip(4)) =~= Seq::<u8>::empty());
        assert(base64_bytes(text) =~= bytes);
    } else {
        let head = encode_group(bytes.take(3));
        let tail = base64_text(bytes.skip(3));
        lemma_group_round_trip(bytes.take(3));
        lemma_round_trip(bytes.skip(3));
        assert(text.take(4) =~= head);
        assert(text.skip(4) =~= tail);
        assert(bytes.take(3) + bytes.skip(3) =~= bytes);
    }
}

/// Calls `Engine::encode` of the `base64` crate on its `STANDARD` engine.
///
/// Trusted: the result is the RFC 4648 encoding of the bytes in the crate's
/// standard alphabet, padded with `=` to whole groups of four and without
/// line breaks. The call panics only where the length of the encoding does
/// not fit in `usize`, which `requires` leaves out.
#[verifier::external_body]
pub(crate) fn encode_standard(bytes: &[u8]) -> (r: String)
    requires
        encodable(bytes@.len()),
    ensures
        r@ == base64_text(bytes@),
{
    base64::Engine::encode(&base64::engine::general_purpose::STANDARD, bytes)
}

/// Tells whether a buffer of `len` bytes can be encoded.
pub fn can_encode(len: usize) -> (r: bool)
    ensures
        r == encodable(len as nat),
{
    let groups: usize = if len % 3 == 0 {
        len / 3
    } else {
        len / 3 + 1
    };
    assert(groups == (len + 2) / 3);
    groups <= usize::MAX / 4
}

/// Encodes `bytes` as standard base64 with padding and no line breaks.
pub fn encode(bytes: &[u8]) -> (r: String)
    requires
        encodable(bytes@.len()),
    ensures
        r@ == base64_text(bytes@),
        r@.len() == encoded_len(bytes@.len()),
        is_payload(r@),
        base64_bytes(r@) == bytes@,
{
    proof {
        lemma_encoding_shape(bytes@);
        lemma_round_trip(bytes@);
    }
    encode_standard(bytes)
}

} // verus!
