//! Decimal and boolean text forms of the numbers that travel in query strings.
use vstd::prelude::*;

verus! {

/// The ASCII digit for `d`, for `0 <= d < 10`.
pub open spec fn digit_char(d: int) -> char {
    if d == 0 { '0' }
    else if d == 1 { '1' }
    else if d == 2 { '2' }
    else if d == 3 { '3' }
    else if d == 4 { '4' }
    else if d == 5 { '5' }
    else if d == 6 { '6' }
    else if d == 7 { '7' }
    else if d == 8 { '8' }
    else { '9' }
}

/// Decimal digits of a natural number, most significant first, no leading zeros.
pub open spec fn nat_decimal(n: nat) -> Seq<char>
    decreases n,
{
    if n < 10 {
        seq![digit_char(n as int)]
    } else {
        nat_decimal(n / 10) + seq![digit_char((n % 10) as int)]
    }
}

/// Decimal form of an integer as `Display` writes it: a `-` before negative numbers.
pub open spec fn decimal(n: int) -> Seq<char> {
    if n < 0 {
        seq!['-'] + nat_decimal((-n) as nat)
    } else {
        nat_decimal(n as nat)
    }
}

/// Text of a boolean as `Display` writes it.
pub open spec fn bool_text(b: bool) -> Seq<char> {
    if b { seq!['t', 'r', 'u', 'e'] } else { seq!['f', 'a', 'l', 's', 'e'] }
}

/// The number that a run of decimal digits spells, most significant first.
pub open spec fn digits_value(s: Seq<char>) -> int
    decreases s.len(),
{
    if s.len() == 0 {
        0
    } else {
        digits_value(s.drop_last()) * 10 + (s.last() as int - '0' as int)
    }
}

/// The decimal text of a natural number is made of the characters `0` to `9`, starts
/// with `0` only when the number is zero, and spells the number back.
pub proof fn decimal_spells_the_number(n: nat)
    ensures
        nat_decimal(n).len() >= 1,
        forall|i: int| 0 <= i < nat_decimal(n).len() ==> '0' <= #[trigger] nat_decimal(n)[i] <= '9',
        nat_decimal(n)[0] == '0' ==> n == 0,
        digits_value(nat_decimal(n)) == n,
    decreases n,
{
    let d = (n % 10) as int;
    assert(digit_char(d) as int == d + '0' as int);
    if n < 10 {
        assert(d == n);
        assert(nat_decimal(n) == seq![digit_char(d)]);
        assert(nat_decimal(n).drop_last() =~= Seq::<char>::empty());
        assert(digits_value(Seq::<char>::empty()) == 0);
        assert(digits_value(nat_decimal(n)) == d);
    }
    if n >= 10 {
        decimal_spells_the_number(n / 10);
        let s = nat_decimal(n);
        let h = nat_decimal(n / 10);
        assert(s == h + seq![digit_char((n % 10) as int)]);
        assert(s.drop_last() =~= h);
        assert forall|i: int| 0 <= i < s.len() implies '0' <= #[trigger] s[i] <= '9' by {
            if i < h.len() {
                assert(s[i] == h[i]);
            }
        }
        assert(s[0] == h[0]);
        assert(digits_value(s) == digits_value(h) * 10 + d);
        assert((n / 10) * 10 + n % 10 == n);
    }
}

/// The text of a negative number is `-` followed by the text of its magnitude; that
/// of any other number has no sign.
pub proof fn decimal_sign(n: int)
    ensures
        n < 0 ==> decimal(n)[0] == '-' && decimal(n).drop_first() == nat_decimal((-n) as nat),
        n >= 0 ==> decimal(n) == nat_decimal(n as nat) && decimal(n)[0] != '-',
{
    if n < 0 {
        assert(decimal(n).drop_first() =~= nat_decimal((-n) as nat));
    } else {
        decimal_spells_the_number(n as nat);
    }
}

fn digit_str(d: u64) -> (s: &'static str)
    requires
        d < 10,
    ensures
        s@ == seq![digit_char(d as int)],
{
    if d == 0 {
        proof { reveal_strlit("0"); }
        "0"
    } else if d == 1 {
        proof { reveal_strlit("1"); }
        "1"
    } else if d == 2 {
        proof { reveal_strlit("2"); }
        "2"
    } else if d == 3 {
        proof { reveal_strlit("3"); }
        "3"
    } else if d == 4 {
        proof { reveal_strlit("4"); }
        "4"
    } else if d == 5 {
        proof { reveal_strlit("5"); }
        "5"
    } else if d == 6 {
        proof { reveal_strlit("6"); }
        "6"
    } else if d == 7 {
        proof { reveal_strlit("7"); }
        "7"
    } else if d == 8 {
        proof { reveal_strlit("8"); }
        "8"
    } else {
        proof { reveal_strlit("9"); }
        "9"
    }
}

fn push_nat_decimal(out: &mut String, n: u64)
    ensures
        final(out)@ == old(out)@ + nat_decimal(n as nat),
    decreases n,
{
    if n >= 10 {
        push_nat_decimal(out, n / 10);
    }
    out.append(digit_str(n % 10));
    proof {
        assert(final(out)@ =~= old(out)@ + nat_decimal(n as nat)) by {
            if n >= 10 {
                assert(nat_decimal(n as nat) == nat_decimal((n / 10) as nat) + seq![digit_char((n % 10) as int)]);
            }
        }
    }
}

/// Decimal text of an unsigned number.
pub fn u64_text(n: u64) -> (s: String)
    ensures
        s@ == decimal(n as int),
{
    let mut s = String::new();
    push_nat_decimal(&mut s, n);
    s
}

/// Decimal text of a signed 64-bit number, as `i64::to_string` gives it.
pub fn i64_text(n: i64) -> (s: String)
    ensures
        s@ == decimal(n as int),
{
    let mut s = String::new();
    if n < 0 {
        proof { reveal_strlit("-"); }
        s.append("-");
        let magnitude: u64 = ((-(n + 1)) as u64) + 1;
        push_nat_decimal(&mut s, magnitude);
    } else {
        push_nat_decimal(&mut s, n as u64);
    }
    s
}

/// Decimal text of a byte-sized number, as `u8::to_string` gives it.
pub fn u8_text(n: u8) -> (s: String)
    ensures
        s@ == decimal(n as int),
{
    u64_text(n as u64)
}

/// `"true"` or `"false"`, as `bool::to_string` gives it.
pub fn bool_to_text(b: bool) -> (s: String)
    ensures
        s@ == bool_text(b),
{
    if b {
        proof { reveal_strlit("true"); }
        "true".to_owned()
    } else {
        proof { reveal_strlit("false"); }
        "false".to_owned()
    }
}

} // verus!
