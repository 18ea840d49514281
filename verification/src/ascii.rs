//! Bytes that are ASCII text, and the characters they stand for.
use vstd::prelude::*;
use vstd::utf8::{decode_utf8, encode_utf8, valid_utf8, is_ascii_chars};

verus! {

/// The characters that a sequence of ASCII bytes stands for, one per byte.
pub open spec fn ascii_chars(bytes: Seq<u8>) -> Seq<char> {
    Seq::new(bytes.len(), |i: int| bytes[i] as char)
}

/// Every byte is below 128.
pub open spec fn all_ascii(bytes: Seq<u8>) -> bool {
    forall|i: int| 0 <= i < bytes.len() ==> bytes[i] < 128
}

/// ASCII bytes are the UTF-8 encoding of the characters they stand for.
pub proof fn lemma_ascii_encoding(bytes: Seq<u8>)
    requires
        all_ascii(bytes),
    ensures
        is_ascii_chars(ascii_chars(bytes)),
        encode_utf8(ascii_chars(bytes)) == bytes,
        valid_utf8(bytes),
        decode_utf8(bytes) == ascii_chars(bytes),
{
    let chars = ascii_chars(bytes);
    assert forall|i: int| 0 <= i < chars.len() implies '\0' <= #[trigger] chars[i] <= '\u{7f}' by {
        assert(bytes[i] < 128);
    }
    vstd::utf8::is_ascii_chars_encode_utf8(chars);
    assert forall|i: int| 0 <= i < bytes.len() implies encode_utf8(chars)[i] == bytes[i] by {
        assert(chars[i] as u8 == encode_utf8(chars)[i]);
    }
    assert(encode_utf8(chars) =~= bytes);
    vstd::utf8::encode_utf8_valid_utf8(chars);
    vstd::utf8::encode_utf8_decode_utf8(chars);
}

/// The text whose UTF-8 encoding is `bytes`, when there is one.
///
/// Trusted: calls `std::str::from_utf8`, which the standard library documents to
/// succeed exactly on valid UTF-8 and to return a string slice over the same bytes.
#[verifier::external_body]
fn utf8_text(bytes: &[u8]) -> (r: Option<&str>)
    ensures
        r is Some <==> valid_utf8(bytes@),
        r matches Some(s) ==> encode_utf8(s@) == bytes@,
{
    std::str::from_utf8(bytes).ok()
}

/// The text of bytes that are all ASCII.
pub fn ascii_text(bytes: &[u8]) -> (s: String)
    requires
        all_ascii(bytes@),
    ensures
        s@ == ascii_chars(bytes@),
{
    proof { lemma_ascii_encoding(bytes@); }
    let text = utf8_text(bytes);
    match text {
        Some(t) => {
            proof { vstd::utf8::encode_utf8_decode_utf8(t@); }
            t.to_owned()
        }
        None => {
            // `valid_utf8` holds, so the call cannot have failed.
            String::new()
        }
    }
}

} // verus!
