//! Decimal notation of natural numbers: writing a number as text, and the
//! number that a run of digits writes.

use vstd::prelude::*;
use vstd::string::*;

verus! {

/// ASCII code of `'0'`.
pub const DIGIT_ZERO: u8 = 48;

/// ASCII code of `'9'`.
pub const DIGIT_NINE: u8 = 57;

/// The byte is an ASCII digit.
pub open spec fn is_digit(b: u8) -> bool {
    DIGIT_ZERO <= b <= DIGIT_NINE
}

/// Every byte is an ASCII digit.
pub open spec fn all_digits(s: Seq<u8>) -> bool {
    forall|i: int| 0 <= i < s.len() ==> is_digit(#[trigger] s[i])
}

/// The number that a run of digits writes; zero for the empty run.
pub open spec fn digits_value(s: Seq<u8>) -> nat
    recommends
        all_digits(s),
    decreases s.len(),
{
    if s.len() == 0 {
        0
    } else {
        digits_value(s.drop_last()) * 10 + (s.last() - DIGIT_ZERO) as nat
    }
}

/// Ten to the power `k`.
pub open spec fn pow10(k: nat) -> nat
    decreases k,
{
    if k == 0 {
        1
    } else {
        10 * pow10((k - 1) as nat)
    }
}

/// The character that writes a digit value.
pub open spec fn digit_char(d: nat) -> char
    recommends
        d < 10,
{
    (DIGIT_ZERO + d) as char
}

/// The decimal notation of `n`: no sign, no leading zero, `"0"` for zero.
pub open spec fn decimal_text(n: nat) -> Seq<char>
    decreases n,
{
    if n < 10 {
        seq![digit_char(n)]
    } else {
        decimal_text(n / 10).push(digit_char(n % 10))
    }
}

/// The bytes of a text whose characters are all ASCII.
pub open spec fn ascii_bytes(text: Seq<char>) -> Seq<u8> {
    text.map_values(|c: char| c as u8)
}

/// The one-character string of a digit.
fn digit_str(d: u32) -> (s: &'static str)
    requires
        d < 10,
    ensures
        s@ == seq![digit_char(d as nat)],
{
    proof {
        reveal_strlit("0");
        reveal_strlit("1");
        reveal_strlit("2");
        reveal_strlit("3");
        reveal_strlit("4");
        reveal_strlit("5");
        reveal_strlit("6");
        reveal_strlit("7");
        reveal_strlit("8");
        reveal_strlit("9");
    }
    let s = match d {
        0 => "0",
        1 => "1",
        2 => "2",
        3 => "3",
        4 => "4",
        5 => "5",
        6 => "6",
        7 => "7",
        8 => "8",
        _ => "9",
    };
    assert(s@ =~= seq![digit_char(d as nat)]);
    s
}

/// Writes `n` in decimal notation.
pub fn decimal_string(n: u32) -> (text: String)
    ensures
        text@ == decimal_text(n as nat),
    decreases n,
{
    if n < 10 {
        String::from_str(digit_str(n))
    } else {
        let mut text = decimal_string(n / 10);
        let ghost head = text@;
        text.append(digit_str(n % 10));
        assert(text@ =~= head.push(digit_char((n % 10) as nat)));
        text
    }
}

/// Decimal notation is a run of ASCII digits, at least one, and the run
/// writes the number it was made from.
pub proof fn lemma_decimal_text_writes(n: nat)
    ensures
        decimal_text(n).len() >= 1,
        all_digits(ascii_bytes(decimal_text(n))),
        digits_value(ascii_bytes(decimal_text(n))) == n,
    decreases n,
{
    let t = ascii_bytes(decimal_text(n));
    if n < 10 {
        assert(t =~= seq![digit_char(n) as u8]);
        assert(t.drop_last() =~= Seq::<u8>::empty());
        assert(digits_value(t.drop_last()) == 0);
    } else {
        lemma_decimal_text_writes(n / 10);
        assert(t =~= ascii_bytes(decimal_text(n / 10)).push(digit_char(n % 10) as u8));
        assert(t.drop_last() =~= ascii_bytes(decimal_text(n / 10)));
    }
}

/// Only zero is written as `"0"`.
pub proof fn lemma_decimal_text_of_positive(n: nat)
    requires
        n > 0,
    ensures
        decimal_text(n) != decimal_text(0),
{
    lemma_decimal_text_writes(n);
    lemma_decimal_text_writes(0);
}

/// Digits written behind a run shift its value by one power of ten each:
/// the value of `a` followed by `b` is `value(a) * 10^len(b) + value(b)`.
pub proof fn lemma_digits_value_concat(a: Seq<u8>, b: Seq<u8>)
    requires
        all_digits(a),
        all_digits(b),
    ensures
        digits_value(a + b) == digits_value(a) * pow10(b.len()) + digits_value(b),
    decreases b.len(),
{
    let va = digits_value(a);
    if b.len() == 0 {
        assert(a + b =~= a);
        assert(va * 1 == va) by (nonlinear_arith);
    } else {
        let front = b.drop_last();
        assert forall|i: int| 0 <= i < front.len() implies is_digit(#[trigger] front[i]) by {
            assert(front[i] == b[i]);
        }
        assert((a + b).drop_last() =~= a + front);
        assert((a + b).last() == b.last());
        lemma_digits_value_concat(a, front);
        let vf = digits_value(front);
        let p = pow10(front.len());
        let d = (b.last() - DIGIT_ZERO) as nat;
        assert(pow10(b.len()) == 10 * p);
        assert(digits_value(a + b) == (va * p + vf) * 10 + d);
        assert(digits_value(b) == vf * 10 + d);
        assert((va * p + vf) * 10 == va * (10 * p) + vf * 10) by (nonlinear_arith);
    }
}

/// A run of `k` digits writes a number below `10^k`.
pub proof fn lemma_digits_value_bound(s: Seq<u8>)
    requires
        all_digits(s),
    ensures
        digits_value(s) < pow10(s.len()),
    decreases s.len(),
{
    if s.len() > 0 {
        let front = s.drop_last();
        assert forall|i: int| 0 <= i < front.len() implies is_digit(#[trigger] front[i]) by {
            assert(front[i] == s[i]);
        }
        lemma_digits_value_bound(front);
        assert(is_digit(s.last()));
    }
}

} // verus!
