//! The webhook secret: text of 5 to 256 characters from `[a-zA-Z0-9_-]`.
use vstd::prelude::*;
use crate::error::Error;

verus! {

/// A character that the secret pattern `[a-zA-Z0-9_-]` admits.
pub open spec fn secret_char(c: char) -> bool {
    ||| ('a' <= c && c <= 'z')
    ||| ('A' <= c && c <= 'Z')
    ||| ('0' <= c && c <= '9')
    ||| c == '_'
    ||| c == '-'
}

/// Text that matches `^[a-zA-Z0-9_-]{5,256}$`.
pub open spec fn valid_secret_text(s: Seq<char>) -> bool {
    &&& 5 <= s.len() <= 256
    &&& forall|i: int| 0 <= i < s.len() ==> secret_char(#[trigger] s[i])
}

fn secret_byte(b: u8) -> (r: bool)
    ensures
        r == secret_char(b as char),
{
    (b >= 97 && b <= 122) || (b >= 65 && b <= 90) || (b >= 48 && b <= 57) || b == 95 || b == 45
}

/// Whether `s` matches `^[a-zA-Z0-9_-]{5,256}$`.
pub fn is_valid_secret(s: &str) -> (r: bool)
    ensures
        r == valid_secret_text(s@),
{
    if !s.is_ascii() {
        proof {
            let i = choose|i: int| 0 <= i < s@.len() && !('\0' <= #[trigger] s@[i] <= '\u{7f}');
            assert(!secret_char(s@[i]));
        }
        return false;
    }
    proof { vstd::string::is_ascii_spec_bytes(s); }
    let bytes = s.as_bytes();
    let n = bytes.len();
    assert(n == s@.len());
    if n < 5 || n > 256 {
        return false;
    }
    let mut i: usize = 0;
    while i < n
        invariant
            n == bytes@.len(),
            n == s@.len(),
            0 <= i <= n,
            forall|j: int| 0 <= j < bytes@.len() ==> bytes@[j] == s@[j] as u8,
            forall|j: int| 0 <= j < s@.len() ==> '\0' <= #[trigger] s@[j] <= '\u{7f}',
            forall|j: int| 0 <= j < i ==> secret_char(#[trigger] s@[j]),
        decreases n - i,
    {
        let b = bytes[i];
        assert(b as char == s@[i as int]);
        if !secret_byte(b) {
            return false;
        }
        i = i + 1;
    }
    true
}

/// A webhook secret; its text always matches `^[a-zA-Z0-9_-]{5,256}$`.
pub struct Secret {
    text: String,
}

impl Secret {
    #[verifier::type_invariant]
    closed spec fn well_formed(self) -> bool {
        valid_secret_text(self.text@)
    }
}

impl View for Secret {
    type V = Seq<char>;

    closed spec fn view(&self) -> Seq<char> {
        self.text@
    }
}

impl Secret {
    /// Checks `s` against the secret pattern, as `FromStr` does: `Invalid` when it
    /// does not match.
    pub fn from_str(s: &str) -> (r: Result<Secret, Error>)
        ensures
            r is Ok <==> valid_secret_text(s@),
            r matches Ok(secret) ==> secret@ == s@,
            r matches Err(e) ==> e == Error::Invalid,
    {
        if is_valid_secret(s) {
            Ok(Secret { text: s.to_owned() })
        } else {
            Err(Error::Invalid)
        }
    }

    /// The secret's text; it always matches the pattern.
    pub fn as_str(&self) -> (r: &str)
        ensures
            r@ == self@,
            valid_secret_text(self@),
    {
        proof { use_type_invariant(self); }
        self.text.as_str()
    }

    /// The secret's text, as `Display` writes it.
    pub fn to_string(&self) -> (r: String)
        ensures
            r@ == self@,
            valid_secret_text(self@),
    {
        proof { use_type_invariant(self); }
        self.text.clone()
    }
}

impl PartialEq for Secret {
    fn eq(&self, other: &Self) -> (r: bool) {
        self.text == other.text
    }
}

impl Eq for Secret {
}

impl Clone for Secret {
    fn clone(&self) -> (r: Self)
        ensures
            r@ == self@,
    {
        proof { use_type_invariant(self); }
        Secret { text: self.text.clone() }
    }
}

impl vstd::std_specs::cmp::PartialEqSpecImpl for Secret {
    open spec fn obeys_eq_spec() -> bool {
        true
    }

    open spec fn eq_spec(&self, other: &Self) -> bool {
        self@ == other@
    }
}

/// A text is a valid secret exactly when it has 5 to 256 characters and each is an
/// ASCII letter, an ASCII digit, `_` or `-`; so `.`, spaces, `+`, `/` and every
/// non-ASCII character are refused.
pub proof fn valid_secret_is_the_pattern(s: Seq<char>)
    ensures
        valid_secret_text(s) <==> (5 <= s.len() <= 256 && forall|i: int|
            0 <= i < s.len() ==> {
                let c = #[trigger] s[i];
                (c as int >= 0x61 && c as int <= 0x7a) || (c as int >= 0x41 && c as int <= 0x5a) || (
                c as int >= 0x30 && c as int <= 0x39) || c as int == 0x5f || c as int == 0x2d
            }),
        !secret_char('.'),
        !secret_char(' '),
        !secret_char('+'),
        !secret_char('/'),
        !secret_char(':'),
{
}

/// Two secrets are `==` exactly when their texts are equal, character for
/// character (case counts).
pub proof fn secret_eq_is_text_equality(a: Secret, b: Secret)
    ensures
        vstd::std_specs::cmp::PartialEqSpec::eq_spec(&a, &b) <==> (a@.len() == b@.len()
            && forall|i: int| 0 <= i < a@.len() ==> a@[i] == b@[i]),
{
    if a@.len() == b@.len() && forall|i: int| 0 <= i < a@.len() ==> a@[i] == b@[i] {
        assert(a@ =~= b@);
    }
}

} // verus!
