//! `application/x-www-form-urlencoded` query strings and the platform URLs built
//! from a path and query pairs.
use vstd::prelude::*;
use vstd::utf8::encode_utf8;

verus! {

/// Uppercase hexadecimal digit for `0 <= d < 16`.
pub open spec fn hex_digit(d: int) -> char {
    if d < 10 {
        crate::text::digit_char(d)
    } else if d == 10 { 'A' }
    else if d == 11 { 'B' }
    else if d == 12 { 'C' }
    else if d == 13 { 'D' }
    else if d == 14 { 'E' }
    else { 'F' }
}

/// Bytes that the urlencoded byte serializer copies unchanged: `*-._`, digits and letters.
pub open spec fn byte_unchanged(b: u8) -> bool {
    ||| b == 42
    ||| b == 45
    ||| b == 46
    ||| (48 <= b && b <= 57)
    ||| (65 <= b && b <= 90)
    ||| b == 95
    ||| (97 <= b && b <= 122)
}

/// The urlencoded form of one byte: itself, `+` for a space, or `%XX`.
pub open spec fn serialize_byte(b: u8) -> Seq<char> {
    if byte_unchanged(b) {
        seq![b as char]
    } else if b == 32 {
        seq!['+']
    } else {
        seq!['%', hex_digit(b as int / 16), hex_digit(b as int % 16)]
    }
}

/// The urlencoded form of a byte sequence, byte by byte.
pub open spec fn serialize_bytes(bytes: Seq<u8>) -> Seq<char>
    decreases bytes.len(),
{
    if bytes.len() == 0 {
        seq![]
    } else {
        serialize_byte(bytes[0]) + serialize_bytes(bytes.drop_first())
    }
}

/// The urlencoded form of a text: its UTF-8 bytes, serialized.
pub open spec fn form_component(s: Seq<char>) -> Seq<char> {
    serialize_bytes(encode_utf8(s))
}

/// `name=value`, both urlencoded.
pub open spec fn form_pair(p: (Seq<char>, Seq<char>)) -> Seq<char> {
    form_component(p.0) + seq!['='] + form_component(p.1)
}

/// The urlencoded pairs, in order, separated by `&`.
pub open spec fn form_urlencoded(pairs: Seq<(Seq<char>, Seq<char>)>) -> Seq<char>
    decreases pairs.len(),
{
    if pairs.len() == 0 {
        seq![]
    } else if pairs.len() == 1 {
        form_pair(pairs[0])
    } else {
        form_pair(pairs[0]) + seq!['&'] + form_urlencoded(pairs.drop_first())
    }
}

/// The value of a hexadecimal digit (either case), as `char::to_digit(16)` gives it.
pub open spec fn hex_value(c: char) -> Option<int> {
    if '0' <= c && c <= '9' {
        Some(c as int - '0' as int)
    } else if 'a' <= c && c <= 'f' {
        Some(c as int - 'a' as int + 10)
    } else if 'A' <= c && c <= 'F' {
        Some(c as int - 'A' as int + 10)
    } else {
        None
    }
}

/// The bytes that a urlencoded text decodes to, as `form_urlencoded::parse` decodes a
/// name or value: `+` is a space, `%` with two hex digits is that byte, and any other
/// character stands for its UTF-8 bytes (a `%` without two hex digits stays).
pub open spec fn percent_decode(cs: Seq<char>) -> Seq<u8>
    decreases cs.len(),
{
    if cs.len() == 0 {
        seq![]
    } else if cs[0] == '+' {
        seq![32u8] + percent_decode(cs.drop_first())
    } else if cs[0] == '%' && cs.len() >= 3 && hex_value(cs[1]) is Some && hex_value(cs[2]) is Some {
        seq![(hex_value(cs[1])->0 * 16 + hex_value(cs[2])->0) as u8] + percent_decode(cs.skip(3))
    } else {
        encode_utf8(seq![cs[0]]) + percent_decode(cs.drop_first())
    }
}

/// Position of the first `c` in `s`, or the length of `s` when there is none.
pub open spec fn index_of(s: Seq<char>, c: char) -> int
    decreases s.len(),
{
    if s.len() == 0 {
        0
    } else if s[0] == c {
        0
    } else {
        1 + index_of(s.drop_first(), c)
    }
}

/// `index_of` finds the first `c`, or runs to the end.
pub proof fn lemma_index_of(s: Seq<char>, c: char)
    ensures
        0 <= index_of(s, c) <= s.len(),
        index_of(s, c) < s.len() ==> s[index_of(s, c)] == c,
        forall|j: int| 0 <= j < index_of(s, c) ==> s[j] != c,
    decreases s.len(),
{
    if s.len() > 0 && s[0] != c {
        lemma_index_of(s.drop_first(), c);
        assert forall|j: int| 0 <= j < index_of(s, c) implies s[j] != c by {
            if j > 0 {
                assert(s[j] == s.drop_first()[j - 1]);
            }
        }
    }
}

/// One `&`-free piece of a query, split at its first `=` into name and value bytes.
pub open spec fn parse_sequence(piece: Seq<char>) -> (Seq<u8>, Seq<u8>) {
    let j = index_of(piece, '=');
    (
        percent_decode(piece.take(j)),
        if j < piece.len() {
            percent_decode(piece.skip(j + 1))
        } else {
            Seq::<u8>::empty()
        },
    )
}

/// The name/value pairs, as bytes, that `form_urlencoded::parse` reads from a query
/// text: pieces between `&`s, empty pieces skipped, each split by `parse_sequence`.
/// (Splitting the text at the ASCII `&` and `=` is splitting its UTF-8 bytes there.)
pub open spec fn form_parse(s: Seq<char>) -> Seq<(Seq<u8>, Seq<u8>)>
    decreases s.len(),
{
    if s.len() == 0 {
        Seq::<(Seq<u8>, Seq<u8>)>::empty()
    } else {
        proof { lemma_index_of(s, '&'); }
        let i = index_of(s, '&');
        let rest = if i < s.len() { s.skip(i + 1) } else { Seq::<char>::empty() };
        (if i == 0 {
            Seq::<(Seq<u8>, Seq<u8>)>::empty()
        } else {
            seq![parse_sequence(s.take(i))]
        }) + form_parse(rest)
    }
}

/// The UTF-8 bytes of each name and value.
pub open spec fn utf8_pairs(pairs: Seq<(Seq<char>, Seq<char>)>) -> Seq<(Seq<u8>, Seq<u8>)> {
    pairs.map_values(|p: (Seq<char>, Seq<char>)| (encode_utf8(p.0), encode_utf8(p.1)))
}

/// Serializes name/value pairs as `application/x-www-form-urlencoded`.
///
/// Trusted: calls `url::form_urlencoded::Serializer::extend_pairs` on an empty
/// string. Its source appends each pair as `name=value` with `&` between pairs, and
/// writes each byte of the UTF-8 text unchanged when it is `*-._`, a digit or an
/// ASCII letter, as `+` when it is a space, and as `%XX` (uppercase hex) otherwise.
/// The contract states exactly that.
#[verifier::external_body]
fn form_urlencode(pairs: &Vec<(String, String)>) -> (r: String)
    ensures
        r@ == form_urlencoded(pairs.deep_view()),
{
    url::form_urlencoded::Serializer::new(String::new()).extend_pairs(pairs.iter()).finish()
}

/// Scheme and host of the platform API.
pub open spec fn api_base() -> Seq<char> {
    "https://platform-api.max.ru"@
}

/// The URL of a platform endpoint: the base, the path, and a `?` with the
/// urlencoded pairs when there are any (as `Url::set_path` and `query_pairs_mut`
/// build it).
pub open spec fn api_url(path: Seq<char>, pairs: Seq<(Seq<char>, Seq<char>)>) -> Seq<char> {
    api_base() + path + if pairs.len() == 0 {
        Seq::<char>::empty()
    } else {
        seq!['?'] + form_urlencoded(pairs)
    }
}

/// A character that a URL path keeps as it is: an ASCII letter, a digit, `/`, `-`
/// or `_`.
pub open spec fn plain_path_char(c: char) -> bool {
    ||| ('a' <= c && c <= 'z')
    ||| ('A' <= c && c <= 'Z')
    ||| ('0' <= c && c <= '9')
    ||| c == '/'
    ||| c == '-'
    ||| c == '_'
}

/// An absolute path of plain ASCII segments, which `Url::set_path` writes unchanged.
pub open spec fn plain_absolute_path(path: Seq<char>) -> bool {
    &&& path.len() >= 1
    &&& path[0] == '/'
    &&& forall|i: int| 0 <= i < path.len() ==> plain_path_char(#[trigger] path[i])
}

/// The URL of the endpoint at `path` with the given query pairs.
pub fn api_url_of(path: &str, pairs: &Vec<(String, String)>) -> (r: String)
    requires
        plain_absolute_path(path@),
    ensures
        r@ == api_url(path@, pairs.deep_view()),
{
    proof { reveal_strlit("https://platform-api.max.ru"); }
    let mut url = "https://platform-api.max.ru".to_owned();
    url.append(path);
    if pairs.len() > 0 {
        let query = form_urlencode(pairs);
        proof { reveal_strlit("?"); }
        url.append("?");
        url.append(query.as_str());
        assert(url@ =~= api_url(path@, pairs.deep_view()));
    } else {
        assert(pairs.deep_view().len() == 0);
        assert(url@ =~= api_url(path@, pairs.deep_view()));
    }
    url
}

/// The uppercase digit of `d` reads back as `d`.
proof fn lemma_hex_round_trip(d: int)
    requires
        0 <= d < 16,
    ensures
        hex_value(hex_digit(d)) == Some(d),
{
}

/// A byte's serialized form, decoded before whatever follows, gives the byte back.
proof fn lemma_decode_serialized_byte(b: u8, rest: Seq<char>)
    ensures
        percent_decode(serialize_byte(b) + rest) == seq![b] + percent_decode(rest),
{
    let cs = serialize_byte(b) + rest;
    if byte_unchanged(b) {
        let c = b as char;
        assert(cs[0] == c);
        assert(cs.drop_first() =~= rest);
        vstd::utf8::is_ascii_chars_encode_utf8(seq![c]);
        assert(encode_utf8(seq![c]) =~= seq![b]);
    } else if b == 32 {
        assert(cs[0] == '+');
        assert(cs.drop_first() =~= rest);
    } else {
        lemma_hex_round_trip(b as int / 16);
        lemma_hex_round_trip(b as int % 16);
        assert(cs[0] == '%');
        assert(cs[1] == hex_digit(b as int / 16));
        assert(cs[2] == hex_digit(b as int % 16));
        assert(cs.skip(3) =~= rest);
        assert((b as int / 16) * 16 + b as int % 16 == b as int);
    }
}

/// Serialized bytes decode back to the bytes, also before whatever follows.
proof fn lemma_decode_serialized_bytes(bytes: Seq<u8>, rest: Seq<char>)
    ensures
        percent_decode(serialize_bytes(bytes) + rest) == bytes + percent_decode(rest),
    decreases bytes.len(),
{
    if bytes.len() == 0 {
        assert(serialize_bytes(bytes) + rest =~= rest);
        assert(bytes + percent_decode(rest) =~= percent_decode(rest));
    } else {
        let tail = serialize_bytes(bytes.drop_first()) + rest;
        lemma_decode_serialized_bytes(bytes.drop_first(), rest);
        lemma_decode_serialized_byte(bytes[0], tail);
        assert(serialize_bytes(bytes) + rest =~= serialize_byte(bytes[0]) + tail);
        assert(seq![bytes[0]] + (bytes.drop_first() + percent_decode(rest)) =~= bytes
            + percent_decode(rest));
    }
}

/// Neither `&` nor `=` occurs in serialized bytes: both are percent-encoded.
proof fn lemma_serialized_has_no_separators(bytes: Seq<u8>)
    ensures
        forall|i: int|
            0 <= i < serialize_bytes(bytes).len() ==> #[trigger] serialize_bytes(bytes)[i] != '&'
                && serialize_bytes(bytes)[i] != '=',
    decreases bytes.len(),
{
    if bytes.len() > 0 {
        lemma_serialized_has_no_separators(bytes.drop_first());
        let head = serialize_byte(bytes[0]);
        let tail = serialize_bytes(bytes.drop_first());
        assert forall|i: int| 0 <= i < head.len() implies head[i] != '&' && head[i] != '=' by {
            if !byte_unchanged(bytes[0]) && bytes[0] != 32 && i > 0 {
                let d = if i == 1 { bytes[0] as int / 16 } else { bytes[0] as int % 16 };
                assert(head[i] == hex_digit(d));
            }
        }
        assert forall|i: int| 0 <= i < serialize_bytes(bytes).len() implies #[trigger] serialize_bytes(
            bytes,
        )[i] != '&' && serialize_bytes(bytes)[i] != '=' by {
            if i >= head.len() {
                assert(serialize_bytes(bytes)[i] == tail[i - head.len()]);
            }
        }
    }
}

/// The first `c` in `a + [c] + b`, when `a` has none, is right after `a`.
proof fn lemma_index_after(a: Seq<char>, c: char, b: Seq<char>)
    requires
        forall|i: int| 0 <= i < a.len() ==> a[i] != c,
    ensures
        index_of(a + seq![c] + b, c) == a.len(),
    decreases a.len(),
{
    if a.len() == 0 {
        assert((a + seq![c] + b)[0] == c);
    } else {
        lemma_index_after(a.drop_first(), c, b);
        assert((a + seq![c] + b).drop_first() =~= a.drop_first() + seq![c] + b);
    }
}

/// With no `c` in `s`, `index_of` runs to the end.
proof fn lemma_index_absent(s: Seq<char>, c: char)
    requires
        forall|i: int| 0 <= i < s.len() ==> s[i] != c,
    ensures
        index_of(s, c) == s.len(),
    decreases s.len(),
{
    if s.len() > 0 {
        lemma_index_absent(s.drop_first(), c);
    }
}

/// A text's urlencoded form decodes to the text's UTF-8 bytes.
proof fn lemma_component_round_trip(s: Seq<char>)
    ensures
        percent_decode(form_component(s)) == encode_utf8(s),
        forall|i: int|
            0 <= i < form_component(s).len() ==> #[trigger] form_component(s)[i] != '&'
                && form_component(s)[i] != '=',
{
    lemma_decode_serialized_bytes(encode_utf8(s), Seq::<char>::empty());
    assert(form_component(s) + Seq::<char>::empty() =~= form_component(s));
    assert(encode_utf8(s) + percent_decode(Seq::<char>::empty()) =~= encode_utf8(s));
    lemma_serialized_has_no_separators(encode_utf8(s));
}

/// A serialized pair has no `&`, and reads back as its name's and value's bytes.
proof fn lemma_pair_round_trip(p: (Seq<char>, Seq<char>))
    ensures
        parse_sequence(form_pair(p)) == (encode_utf8(p.0), encode_utf8(p.1)),
        forall|i: int| 0 <= i < form_pair(p).len() ==> #[trigger] form_pair(p)[i] != '&',
        form_pair(p).len() >= 1,
{
    let a = form_component(p.0);
    let b = form_component(p.1);
    lemma_component_round_trip(p.0);
    lemma_component_round_trip(p.1);
    let s = form_pair(p);
    assert(s == a + seq!['='] + b);
    lemma_index_after(a, '=', b);
    assert(s.take(a.len() as int) =~= a);
    assert(s.skip(a.len() as int + 1) =~= b);
    assert forall|i: int| 0 <= i < s.len() implies #[trigger] s[i] != '&' by {
        if i < a.len() {
            assert(s[i] == a[i]);
        } else if i > a.len() {
            assert(s[i] == b[i - a.len() - 1]);
        }
    }
}

/// Decoding the urlencoded form of pairs gives back each pair's name and value: as
/// `form_urlencoded::parse` reads it, the query yields exactly the pairs' UTF-8
/// bytes, in order, and those bytes are valid UTF-8 for the same texts.
pub proof fn urlencoded_pairs_round_trip(pairs: Seq<(Seq<char>, Seq<char>)>)
    ensures
        form_parse(form_urlencoded(pairs)) == utf8_pairs(pairs),
        forall|i: int|
            0 <= i < pairs.len() ==> {
                &&& vstd::utf8::valid_utf8(#[trigger] utf8_pairs(pairs)[i].0)
                &&& vstd::utf8::decode_utf8(utf8_pairs(pairs)[i].0) == pairs[i].0
                &&& vstd::utf8::valid_utf8(utf8_pairs(pairs)[i].1)
                &&& vstd::utf8::decode_utf8(utf8_pairs(pairs)[i].1) == pairs[i].1
            },
    decreases pairs.len(),
{
    assert forall|i: int| 0 <= i < pairs.len() implies {
        &&& vstd::utf8::valid_utf8(#[trigger] utf8_pairs(pairs)[i].0)
        &&& vstd::utf8::decode_utf8(utf8_pairs(pairs)[i].0) == pairs[i].0
        &&& vstd::utf8::valid_utf8(utf8_pairs(pairs)[i].1)
        &&& vstd::utf8::decode_utf8(utf8_pairs(pairs)[i].1) == pairs[i].1
    } by {
        vstd::utf8::encode_utf8_valid_utf8(pairs[i].0);
        vstd::utf8::encode_utf8_decode_utf8(pairs[i].0);
        vstd::utf8::encode_utf8_valid_utf8(pairs[i].1);
        vstd::utf8::encode_utf8_decode_utf8(pairs[i].1);
    }
    if pairs.len() == 0 {
        assert(utf8_pairs(pairs) =~= Seq::<(Seq<u8>, Seq<u8>)>::empty());
    } else {
        let first = form_pair(pairs[0]);
        lemma_pair_round_trip(pairs[0]);
        let s = form_urlencoded(pairs);
        if pairs.len() == 1 {
            assert(s == first);
            lemma_index_absent(s, '&');
            assert(s.take(s.len() as int) =~= s);
            assert(form_parse(s) =~= seq![parse_sequence(s)] + form_parse(Seq::<char>::empty()));
            assert(utf8_pairs(pairs) =~= seq![(encode_utf8(pairs[0].0), encode_utf8(pairs[0].1))]);
        } else {
            let rest = form_urlencoded(pairs.drop_first());
            assert(s == first + seq!['&'] + rest);
            lemma_index_after(first, '&', rest);
            assert(s.take(first.len() as int) =~= first);
            assert(s.skip(first.len() as int + 1) =~= rest);
            urlencoded_pairs_round_trip(pairs.drop_first());
            assert(utf8_pairs(pairs) =~= seq![(encode_utf8(pairs[0].0), encode_utf8(pairs[0].1))]
                + utf8_pairs(pairs.drop_first()));
        }
    }
}

} // verus!
