//! Text as the library builds it: owned strings and decimal numerals.
use vstd::arithmetic::div_mod::lemma_div_denominator;
use vstd::arithmetic::power::{lemma_pow0, lemma_pow1, lemma_pow_positive, pow};
use vstd::prelude::*;

verus! {

/// `String::from(&str)`: the new string holds the characters of the slice.
/// Taken from the standard library's documentation, not proved here.
pub assume_specification<'a>[ <String as From<&'a str>>::from ](s: &str) -> (r: String)
    ensures
        r@ == s@,
;

/// `String::from(&String)`: the new string is a copy of the given one.
/// Taken from the standard library's documentation, not proved here.
pub assume_specification<'a>[ <String as From<&'a String>>::from ](s: &String) -> (r: String)
    ensures
        r@ == s@,
;

/// `T::from(T)`, the reflexive conversion: it hands its argument back.
/// Taken from the standard library's documentation, not proved here.
pub assume_specification<T>[ <T as From<T>>::from ](t: T) -> (r: T)
    ensures
        r == t,
;

/// The decimal digit of value `d`, for `d` below ten.
pub open spec fn digit_char(d: nat) -> char
    recommends
        d < 10,
{
    ('0' as u32 + d) as char
}

/// The decimal numeral of `n`: most significant digit first, no leading zero.
pub open spec fn decimal_text(n: nat) -> Seq<char>
    decreases n,
{
    if n < 10 {
        seq![digit_char(n)]
    } else {
        decimal_text(n / 10).push(digit_char(n % 10))
    }
}

/// The numeral of one digit.
fn digit(d: u32) -> (r: &'static str)
    requires
        d < 10,
    ensures
        r@ == seq![digit_char(d as nat)],
{
    proof {
        reveal_strlit("0");
        reveal_strlit("1");
        reveal_strlit("2");
        reveal_strlit("3");
        reveal_strlit("4");
        reveal_strlit("5");
        reveal_strlit("6");
        reveal_strlit("7");
        reveal_strlit("8");
        reveal_strlit("9");
    }
    if d == 0 {
        "0"
    } else if d == 1 {
        "1"
    } else if d == 2 {
        "2"
    } else if d == 3 {
        "3"
    } else if d == 4 {
        "4"
    } else if d == 5 {
        "5"
    } else if d == 6 {
        "6"
    } else if d == 7 {
        "7"
    } else if d == 8 {
        "8"
    } else {
        "9"
    }
}

/// Writes `n` in decimal.
pub fn decimal(n: u32) -> (r: String)
    ensures
        r@ == decimal_text(n as nat),
    decreases n,
{
    if n < 10 {
        digit(n).to_string()
    } else {
        let mut r = decimal(n / 10);
        r.append(digit(n % 10));
        r
    }
}

/// A decimal numeral has the digits of its number, and no more of them than
/// needed: counted from the right and from zero, the character at place `i` is
/// the digit `n / 10^i % 10`, and the leading digit is not zero unless `n` is.
pub proof fn law_decimal_digits(n: nat)
    ensures
        decimal_text(n).len() >= 1,
        n == 0 ==> decimal_text(n).len() == 1,
        n > 0 ==> pow(10, (decimal_text(n).len() - 1) as nat) <= n,
        n < pow(10, decimal_text(n).len()),
        forall|i: nat|
            i < decimal_text(n).len() ==> decimal_text(n)[decimal_text(n).len() - 1 - i] as int
                == 48 + (n as int / #[trigger] pow(10, i)) % 10,
    decreases n,
{
    lemma_pow0(10);
    lemma_pow1(10);
    let s = decimal_text(n);
    if n < 10 {
        assert(s.len() == 1);
        assert(n as int / 1 == n);
    } else {
        let m = n / 10;
        let t = decimal_text(m);
        let len = t.len();
        law_decimal_digits(m);
        assert(s =~= t.push(digit_char(n % 10)));
        assert(pow(10, len) == 10 * pow(10, (len - 1) as nat)) by {
            reveal(pow);
        }
        assert(pow(10, len + 1) == 10 * pow(10, len)) by {
            reveal(pow);
        }
        assert forall|i: nat| i < s.len() implies s[s.len() - 1 - i] as int == 48 + (n as int
            / #[trigger] pow(10, i)) % 10 by {
            if i > 0 {
                let j = (i - 1) as nat;
                lemma_pow_positive(10, j);
                assert(pow(10, i) == 10 * pow(10, j)) by {
                    reveal(pow);
                }
                lemma_div_denominator(n as int, 10, pow(10, j));
                assert(s[s.len() - 1 - i] == t[t.len() - 1 - j]);
            } else {
                assert(n as int / 1 == n);
            }
        }
    }
}

} // verus!
