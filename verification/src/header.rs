//! The `x-max-bot-api-secret` header that carries the webhook secret, and the
//! check that a webhook call carries the expected one.
use vstd::prelude::*;
use vstd::utf8::encode_utf8;
use crate::ascii::{all_ascii, ascii_chars, ascii_text};
use crate::secret::{Secret, secret_char, valid_secret_text};

verus! {

/// A byte that `HeaderValue::to_str` accepts: visible ASCII or a tab.
pub open spec fn visible_ascii(b: u8) -> bool {
    (32 <= b && b < 127) || b == 9
}

/// A byte that `HeaderValue::from_str` accepts: anything but controls and DEL, or a tab.
pub open spec fn header_value_byte(b: u8) -> bool {
    (32 <= b && b != 127) || b == 9
}

/// `to_str` admits a tab and the printable ASCII bytes, space to `~`, and nothing
/// else: no other control byte, no DEL, no byte of 128 or more.
pub proof fn visible_ascii_is_printable_or_tab(b: u8)
    ensures
        visible_ascii(b) <==> (b == 9 || (0x20 <= b && b <= 0x7e)),
        header_value_byte(b) <==> (b == 9 || (0x20 <= b && b <= 0x7e) || b >= 0x80),
{
}

/// Every byte is visible ASCII.
pub open spec fn all_visible(bytes: Seq<u8>) -> bool {
    forall|i: int| 0 <= i < bytes.len() ==> visible_ascii(#[trigger] bytes[i])
}

/// The text of a header value, as `HeaderValue::to_str` gives it: present exactly
/// when every byte is visible ASCII.
pub fn header_value_to_str(bytes: &[u8]) -> (r: Option<String>)
    ensures
        r is Some <==> all_visible(bytes@),
        r matches Some(s) ==> s@ == ascii_chars(bytes@),
{
    let n = bytes.len();
    let mut i: usize = 0;
    while i < n
        invariant
            n == bytes@.len(),
            0 <= i <= n,
            forall|j: int| 0 <= j < i ==> visible_ascii(#[trigger] bytes@[j]),
        decreases n - i,
    {
        let b = bytes[i];
        if !((b >= 32 && b < 127) || b == 9) {
            return None;
        }
        i = i + 1;
    }
    assert(all_ascii(bytes@));
    Some(ascii_text(bytes))
}

/// The bytes of a header value made from `s`, as `HeaderValue::from_str` makes it:
/// present exactly when every byte of `s` is allowed in a header value.
pub fn header_value_from_str(s: &str) -> (r: Option<Vec<u8>>)
    ensures
        r is Some <==> forall|i: int|
            0 <= i < encode_utf8(s@).len() ==> header_value_byte(#[trigger] encode_utf8(s@)[i]),
        r matches Some(v) ==> v@ == encode_utf8(s@),
{
    let bytes = s.as_bytes();
    let n = bytes.len();
    let mut i: usize = 0;
    while i < n
        invariant
            n == bytes@.len(),
            bytes@ == encode_utf8(s@),
            0 <= i <= n,
            forall|j: int| 0 <= j < i ==> header_value_byte(#[trigger] bytes@[j]),
        decreases n - i,
    {
        let b = bytes[i];
        if !((b >= 32 && b != 127) || b == 9) {
            return None;
        }
        i = i + 1;
    }
    Some(vstd::slice::slice_to_vec(bytes))
}

/// The header could not be read as a secret.
#[derive(Debug, Clone, Copy, PartialEq, Eq, Structural)]
pub struct InvalidHeader;

/// What reading the header's values gives: the secret text when there is exactly
/// one value, it is visible ASCII, and its text matches the secret pattern.
pub open spec fn decoded_secret(values: Seq<Seq<u8>>) -> Option<Seq<char>> {
    if values.len() == 1 && all_visible(values[0]) && valid_secret_text(ascii_chars(values[0])) {
        Some(ascii_chars(values[0]))
    } else {
        None
    }
}

/// The text that encoding writes into the header value: the header's name, a colon,
/// a space and the secret.
pub open spec fn encoded_text(secret: Seq<char>) -> Seq<char> {
    "x-max-bot-api-secret: "@ + secret
}

/// The header that carries the webhook secret.
pub struct MaxBotApiSecret(pub Secret);

impl MaxBotApiSecret {
    /// The header's name.
    pub fn name() -> (r: &'static str)
        ensures
            r@ == "x-max-bot-api-secret"@,
    {
        "x-max-bot-api-secret"
    }

    /// Reads the header from its values: exactly one, visible ASCII, matching the
    /// secret pattern; anything else is `InvalidHeader`.
    pub fn decode(values: &Vec<Vec<u8>>) -> (r: Result<MaxBotApiSecret, InvalidHeader>)
        ensures
            r is Ok <==> decoded_secret(values.deep_view()) is Some,
            r matches Ok(h) ==> decoded_secret(values.deep_view()) == Some(h.0@),
    {
        if values.len() != 1 {
            return Err(InvalidHeader);
        }
        let first = &values[0];
        assert(first.deep_view() =~= first@);
        assert(values.deep_view()[0] == first@);
        match header_value_to_str(first.as_slice()) {
            None => Err(InvalidHeader),
            Some(text) => {
                match Secret::from_str(text.as_str()) {
                    Ok(secret) => Ok(MaxBotApiSecret(secret)),
                    Err(_) => Err(InvalidHeader),
                }
            }
        }
    }

    /// Writes the header: one value holding `"x-max-bot-api-secret: "` followed by the
    /// secret (a value that `HeaderValue::from_str` always accepts, since the secret is
    /// ASCII).
    pub fn encode(&self) -> (r: Vec<Vec<u8>>)
        ensures
            r.deep_view() == seq![encode_utf8(encoded_text(self.0@))],
    {
        let secret = self.0.as_str();
        proof { reveal_strlit("x-max-bot-api-secret: "); }
        let mut text = "x-max-bot-api-secret: ".to_owned();
        text.append(secret);
        let ghost t = text@;
        assert(t == encoded_text(self.0@));
        proof {
            assert forall|i: int| 0 <= i < t.len() implies '\0' <= #[trigger] t[i] <= '\u{7f}'
                && ' ' <= t[i] && t[i] != '\u{7f}' by {
                if i >= 22 {
                    assert(t[i] == self.0@[i - 22]);
                    assert(secret_char(self.0@[i - 22]));
                }
            }
            vstd::utf8::is_ascii_chars_encode_utf8(t);
            assert forall|i: int| 0 <= i < encode_utf8(t).len() implies header_value_byte(
                #[trigger] encode_utf8(t)[i],
            ) by {
                assert(t[i] as u8 == encode_utf8(t)[i]);
            }
        }
        let mut out: Vec<Vec<u8>> = Vec::new();
        match header_value_from_str(text.as_str()) {
            Some(v) => { out.push(v); }
            None => {}
        }
        assert(out@.len() == 1);
        assert(out@[0].deep_view() =~= out@[0]@);
        assert(out.deep_view() =~= seq![encode_utf8(encoded_text(self.0@))]);
        out
    }
}

/// The bytes of a text of ASCII characters stand for that text again.
proof fn lemma_ascii_round_trip(t: Seq<char>)
    requires
        forall|i: int| 0 <= i < t.len() ==> '\0' <= #[trigger] t[i] <= '\u{7f}',
    ensures
        ascii_chars(encode_utf8(t)) == t,
        encode_utf8(t).len() == t.len(),
        forall|i: int| 0 <= i < t.len() ==> encode_utf8(t)[i] == t[i] as u8,
{
    vstd::utf8::is_ascii_chars_encode_utf8(t);
    assert(ascii_chars(encode_utf8(t)) =~= t);
}

/// A single header value holding the text of a valid secret reads back as that secret.
pub proof fn decode_reads_single_secret_value(secret: Seq<char>)
    requires
        valid_secret_text(secret),
    ensures
        decoded_secret(seq![encode_utf8(secret)]) == Some(secret),
{
    assert forall|i: int| 0 <= i < secret.len() implies '\0' <= #[trigger] secret[i] <= '\u{7f}' by {
        assert(secret_char(secret[i]));
    }
    lemma_ascii_round_trip(secret);
    let bytes = encode_utf8(secret);
    assert forall|i: int| 0 <= i < bytes.len() implies visible_ascii(#[trigger] bytes[i]) by {
        assert(secret_char(secret[i]));
        assert(bytes[i] == secret[i] as u8);
    }
    assert(seq![bytes][0] == bytes);
}

/// The value that `encode` writes does not read back as a secret: it starts with the
/// header's name and `": "`, and `:` is not a secret character.
pub proof fn encoded_value_does_not_decode(secret: Seq<char>)
    requires
        valid_secret_text(secret),
    ensures
        decoded_secret(seq![encode_utf8(encoded_text(secret))]) is None,
{
    reveal_strlit("x-max-bot-api-secret: ");
    let t = encoded_text(secret);
    assert forall|i: int| 0 <= i < t.len() implies '\0' <= #[trigger] t[i] <= '\u{7f}' by {
        if i >= 22 {
            assert(t[i] == secret[i - 22]);
            assert(secret_char(secret[i - 22]));
        }
    }
    lemma_ascii_round_trip(t);
    assert(seq![encode_utf8(t)][0] == encode_utf8(t));
    assert(t[20] == ':');
    assert(!secret_char(ascii_chars(encode_utf8(t))[20]));
}

/// Whether a webhook call may go on: it carried the secret header, and its secret
/// equals the expected one.
pub fn authorized(expected: &Secret, got: &Option<MaxBotApiSecret>) -> (r: bool)
    ensures
        r == (got matches Some(h) && h.0@ == expected@),
{
    match got {
        Some(h) => h.0 == *expected,
        None => false,
    }
}

} // verus!
