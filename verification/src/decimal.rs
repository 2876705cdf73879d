//! Decimal rendering and parsing of integers, the shared base of the command
//! grammar and the page renderer: callback data embeds ids as decimal text,
//! and parsing that text must recover exactly the embedded value.

use vstd::prelude::*;

verus! {

/// A decimal digit character.
pub open spec fn is_digit(c: char) -> bool {
    '0' <= c && c <= '9'
}

/// Numeric value of a digit character.
pub open spec fn digit_val(c: char) -> int {
    c as int - '0' as int
}

/// The digit character for a value below ten.
pub open spec fn char_of_digit(d: int) -> char {
    if d == 0 { '0' }
    else if d == 1 { '1' }
    else if d == 2 { '2' }
    else if d == 3 { '3' }
    else if d == 4 { '4' }
    else if d == 5 { '5' }
    else if d == 6 { '6' }
    else if d == 7 { '7' }
    else if d == 8 { '8' }
    else { '9' }
}

/// Every character of `s` is a decimal digit.
pub open spec fn all_digits(s: Seq<char>) -> bool {
    forall|i: int| 0 <= i < s.len() ==> is_digit(#[trigger] s[i])
}

/// Value of a digit string read most-significant first.
pub open spec fn dec_nat_val(s: Seq<char>) -> int
    decreases s.len(),
{
    if s.len() == 0 {
        0
    } else {
        dec_nat_val(s.drop_last()) * 10 + digit_val(s.last())
    }
}

/// Canonical decimal rendering of a non-negative integer: no leading zeros.
pub open spec fn dec_str_nat(n: int) -> Seq<char>
    recommends
        n >= 0,
    decreases n,
{
    if n < 10 {
        seq![char_of_digit(n)]
    } else {
        dec_str_nat(n / 10).push(char_of_digit(n % 10))
    }
}

/// Canonical decimal rendering of an integer, with a leading minus sign
/// when negative.
pub open spec fn dec_str(n: int) -> Seq<char> {
    if n < 0 {
        seq!['-'] + dec_str_nat(-n)
    } else {
        dec_str_nat(n)
    }
}

/// The rendering of a non-negative integer consists of digits only.
pub proof fn lemma_dec_str_nat_digits(n: int)
    requires
        n >= 0,
    ensures
        dec_str_nat(n).len() >= 1,
        all_digits(dec_str_nat(n)),
    decreases n,
{
    if n < 10 {
    } else {
        lemma_dec_str_nat_digits(n / 10);
        assert(dec_str_nat(n) == dec_str_nat(n / 10).push(char_of_digit(n % 10)));
        assert(is_digit(char_of_digit(n % 10)));
        assert forall|i: int| 0 <= i < dec_str_nat(n).len() implies is_digit(
            #[trigger] dec_str_nat(n)[i],
        ) by {
            if i < dec_str_nat(n / 10).len() {
                assert(dec_str_nat(n)[i] == dec_str_nat(n / 10)[i]);
            }
        }
    }
}

/// Reading back the canonical rendering recovers the value.
pub proof fn lemma_dec_str_nat_roundtrip(n: int)
    requires
        n >= 0,
    ensures
        dec_nat_val(dec_str_nat(n)) == n,
    decreases n,
{
    if n < 10 {
        let s = dec_str_nat(n);
        assert(s == seq![char_of_digit(n)]);
        assert(s.drop_last() =~= Seq::<char>::empty());
        assert(dec_nat_val(Seq::<char>::empty()) == 0);
        assert(dec_nat_val(s) == dec_nat_val(s.drop_last()) * 10 + digit_val(s.last()));
        assert(s.last() == char_of_digit(n));
        assert(digit_val(char_of_digit(n)) == n);
    } else {
        lemma_dec_str_nat_roundtrip(n / 10);
        let s = dec_str_nat(n);
        assert(s == dec_str_nat(n / 10).push(char_of_digit(n % 10)));
        assert(s.drop_last() =~= dec_str_nat(n / 10));
        assert(s.last() == char_of_digit(n % 10));
        assert(digit_val(char_of_digit(n % 10)) == n % 10);
        assert(dec_nat_val(s) == (n / 10) * 10 + n % 10);
        assert((n / 10) * 10 + n % 10 == n) by (nonlinear_arith);
    }
}

/// A digit string read most-significant first is never negative.
pub proof fn lemma_dec_nat_val_nonneg(s: Seq<char>)
    requires
        all_digits(s),
    ensures
        dec_nat_val(s) >= 0,
    decreases s.len(),
{
    if s.len() > 0 {
        assert(all_digits(s.drop_last())) by {
            assert(forall|i: int|
                0 <= i < s.drop_last().len() ==> s.drop_last()[i] == #[trigger] s[i]);
        }
        lemma_dec_nat_val_nonneg(s.drop_last());
        assert(is_digit(s.last()));
    }
}

/// Reading a prefix of a digit string never exceeds reading all of it.
pub proof fn lemma_dec_nat_val_prefix_le(s: Seq<char>, m: int)
    requires
        all_digits(s),
        0 <= m <= s.len(),
    ensures
        dec_nat_val(s.subrange(0, m)) <= dec_nat_val(s),
    decreases s.len() - m,
{
    if m == s.len() {
        assert(s.subrange(0, m) =~= s);
    } else {
        let a = s.subrange(0, m);
        let b = s.subrange(0, m + 1);
        assert(b.drop_last() =~= a);
        assert(b.last() == s[m]);
        assert(all_digits(a)) by {
            assert(forall|i: int| 0 <= i < a.len() ==> a[i] == #[trigger] s[i]);
        }
        lemma_dec_nat_val_nonneg(a);
        assert(is_digit(s[m]));
        assert(dec_nat_val(b) == dec_nat_val(a) * 10 + digit_val(s[m]));
        assert(dec_nat_val(a) <= dec_nat_val(b));
        lemma_dec_nat_val_prefix_le(s, m + 1);
    }
}

fn digit_str(d: u64) -> (r: &'static str)
    requires
        d < 10,
    ensures
        r@ == seq![char_of_digit(d as int)],
{
    proof {
        reveal_strlit("0");
        reveal_strlit("1");
        reveal_strlit("2");
        reveal_strlit("3");
        reveal_strlit("4");
        reveal_strlit("5");
        reveal_strlit("6");
        reveal_strlit("7");
        reveal_strlit("8");
        reveal_strlit("9");
    }
    let r = match d {
        0 => "0",
        1 => "1",
        2 => "2",
        3 => "3",
        4 => "4",
        5 => "5",
        6 => "6",
        7 => "7",
        8 => "8",
        _ => "9",
    };
    proof {
        assert(r@ =~= seq![char_of_digit(d as int)]);
    }
    r
}

/// Renders a non-negative integer as canonical decimal text.
pub fn u64_to_string(n: u64) -> (r: String)
    ensures
        r@ == dec_str_nat(n as int),
    decreases n,
{
    if n < 10 {
        String::from_str(digit_str(n))
    } else {
        let mut s = u64_to_string(n / 10);
        s.append(digit_str(n % 10));
        proof {
            assert(s@ =~= dec_str_nat(n as int / 10).push(char_of_digit(n as int % 10)));
        }
        s
    }
}

/// Renders an integer as canonical decimal text, minus sign included.
pub fn i64_to_string(n: i64) -> (r: String)
    ensures
        r@ == dec_str(n as int),
{
    if n >= 0 {
        u64_to_string(n as u64)
    } else {
        let m: u64 = ((-(n + 1)) as u64) + 1;
        assert(m as int == -(n as int));
        let mut s = String::from_str("-");
        let digits = u64_to_string(m);
        s.append(digits.as_str());
        proof {
            reveal_strlit("-");
            assert(s@ =~= seq!['-'] + dec_str_nat(-(n as int)));
        }
        s
    }
}

/// Renders a count as canonical decimal text.
pub fn usize_to_string(n: usize) -> (r: String)
    ensures
        r@ == dec_str_nat(n as int),
{
    u64_to_string(n as u64)
}

} // verus!
