//! Text helpers: decimal rendering of integers and prefix handling, stated over
//! sequences of characters.

use vstd::prelude::*;

verus! {

/// The character of the decimal digit `d`; meaningful where `d < 10`.
pub open spec fn digit(d: nat) -> char {
    if d == 0 {
        '0'
    } else if d == 1 {
        '1'
    } else if d == 2 {
        '2'
    } else if d == 3 {
        '3'
    } else if d == 4 {
        '4'
    } else if d == 5 {
        '5'
    } else if d == 6 {
        '6'
    } else if d == 7 {
        '7'
    } else if d == 8 {
        '8'
    } else {
        '9'
    }
}

/// Whether `c` is a decimal digit.
pub open spec fn is_digit(c: char) -> bool {
    c == '0' || c == '1' || c == '2' || c == '3' || c == '4' || c == '5' || c == '6' || c == '7'
        || c == '8' || c == '9'
}

/// The value of a decimal digit; meaningful where `is_digit(c)`.
pub open spec fn digit_value(c: char) -> nat {
    if c == '1' {
        1
    } else if c == '2' {
        2
    } else if c == '3' {
        3
    } else if c == '4' {
        4
    } else if c == '5' {
        5
    } else if c == '6' {
        6
    } else if c == '7' {
        7
    } else if c == '8' {
        8
    } else if c == '9' {
        9
    } else {
        0
    }
}

/// The decimal rendering of `n`: no sign, no leading zero, `"0"` for zero.
pub open spec fn decimal(n: nat) -> Seq<char>
    decreases n,
{
    if n < 10 {
        seq![digit(n)]
    } else {
        decimal(n / 10).push(digit(n % 10))
    }
}

/// The number that a sequence of decimal digits denotes, most significant
/// digit first.
pub open spec fn decimal_value(s: Seq<char>) -> nat
    decreases s.len(),
{
    if s.len() == 0 {
        0
    } else {
        decimal_value(s.drop_last()) * 10 + digit_value(s.last())
    }
}

/// Whether every character of `s` is a decimal digit.
pub open spec fn all_digits(s: Seq<char>) -> bool {
    forall|i: int| 0 <= i < s.len() ==> is_digit(#[trigger] s[i])
}

/// Each of the ten digits is a digit and has its own value.
pub proof fn lemma_digit_value(d: nat)
    requires
        d < 10,
    ensures
        is_digit(digit(d)),
        digit_value(digit(d)) == d,
{
}

/// A decimal rendering is never empty and holds digits only.
pub proof fn lemma_decimal_digits(n: nat)
    ensures
        decimal(n).len() >= 1,
        all_digits(decimal(n)),
    decreases n,
{
    if n < 10 {
        lemma_digit_value(n);
    } else {
        lemma_decimal_digits(n / 10);
        lemma_digit_value(n % 10);
        let s = decimal(n);
        assert forall|i: int| 0 <= i < s.len() implies is_digit(#[trigger] s[i]) by {
            if i < s.len() - 1 {
                assert(s[i] == decimal(n / 10)[i]);
            }
        }
    }
}

/// Reading a decimal rendering back gives the number it was made from.
pub proof fn lemma_decimal_value(n: nat)
    ensures
        decimal_value(decimal(n)) == n,
    decreases n,
{
    if n < 10 {
        lemma_digit_value(n);
        let s = decimal(n);
        assert(s.drop_last() =~= Seq::<char>::empty());
        assert(decimal_value(s.drop_last()) == 0);
    } else {
        lemma_decimal_value(n / 10);
        lemma_digit_value(n % 10);
        let s = decimal(n);
        assert(s.drop_last() =~= decimal(n / 10));
    }
}

/// Two numbers with the same decimal rendering are the same number.
pub proof fn lemma_decimal_injective(a: nat, b: nat)
    requires
        decimal(a) == decimal(b),
    ensures
        a == b,
{
    lemma_decimal_value(a);
    lemma_decimal_value(b);
}

/// The one-character text of a decimal digit.
fn digit_text(d: u64) -> (text: &'static str)
    requires
        d < 10,
    ensures
        text@ == seq![digit(d as nat)],
{
    proof {
        reveal_strlit("0");
        reveal_strlit("1");
        reveal_strlit("2");
        reveal_strlit("3");
        reveal_strlit("4");
        reveal_strlit("5");
        reveal_strlit("6");
        reveal_strlit("7");
        reveal_strlit("8");
        reveal_strlit("9");
    }
    let text = if d == 0 {
        "0"
    } else if d == 1 {
        "1"
    } else if d == 2 {
        "2"
    } else if d == 3 {
        "3"
    } else if d == 4 {
        "4"
    } else if d == 5 {
        "5"
    } else if d == 6 {
        "6"
    } else if d == 7 {
        "7"
    } else if d == 8 {
        "8"
    } else {
        "9"
    };
    assert(text@ =~= seq![digit(d as nat)]);
    text
}

/// Renders `n` in decimal.
pub fn render_decimal(n: u64) -> (text: String)
    ensures
        text@ == decimal(n as nat),
    decreases n,
{
    if n < 10 {
        String::from_str(digit_text(n))
    } else {
        let head = render_decimal(n / 10);
        let text = head.concat(digit_text(n % 10));
        assert(text@ =~= decimal(n as nat));
        text
    }
}

/// Whether two texts hold the same characters, by `str`'s own `==`.
///
/// Claimed of std, and not proved: two string slices compare equal exactly
/// when they hold the same sequence of characters.
#[verifier::external_body]
pub(crate) fn same_text(a: &str, b: &str) -> (same: bool)
    ensures
        same == (a@ == b@),
{
    a == b
}

/// What is left of `text` after `prefix`, where `text` starts with it.
pub fn strip_prefix<'a>(text: &'a str, prefix: &str) -> (rest: Option<&'a str>)
    ensures
        rest is Some <==> prefix@.is_prefix_of(text@),
        rest matches Some(r) ==> r@ == text@.skip(prefix@.len() as int),
{
    let n: usize = text.unicode_len();
    let m: usize = prefix.unicode_len();
    if m > n {
        return None;
    }
    let head = text.substring_char(0, m);
    if same_text(head, prefix) {
        let r = text.substring_char(m, n);
        assert(r@ =~= text@.skip(prefix@.len() as int));
        Some(r)
    } else {
        None
    }
}

} // verus!
