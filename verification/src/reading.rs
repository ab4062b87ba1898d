//! Reading the brightness that the backlight tool printed.
//!
//! The tool prints a decimal number such as `47.600000` and a newline. The
//! reading is that number rounded to the nearest whole percent, halves
//! upward, and never more than 100. Anything that is not a plain decimal
//! number (a sign, an exponent, a word, nothing at all) gives no reading.

use vstd::prelude::*;
use crate::decimal::{
    all_digits,
    ascii_bytes,
    decimal_text,
    digits_value,
    is_digit,
    lemma_decimal_text_writes,
    lemma_digits_value_bound,
    lemma_digits_value_concat,
    pow10,
    DIGIT_NINE,
    DIGIT_ZERO,
};

verus! {

/// Largest brightness that a reading reports.
pub const READING_MAX: u8 = 100;

/// ASCII code of `'5'`.
pub const DIGIT_FIVE: u8 = 53;

/// ASCII code of `'.'`.
pub const DECIMAL_POINT: u8 = 46;

/// ASCII white space: tab, line feed, vertical tab, form feed, carriage
/// return and space.
pub open spec fn is_space(b: u8) -> bool {
    9 <= b <= 13 || b == 32
}

/// `s` without its leading white space.
pub open spec fn trim_start(s: Seq<u8>) -> Seq<u8>
    decreases s.len(),
{
    if s.len() > 0 && is_space(s[0]) {
        trim_start(s.drop_first())
    } else {
        s
    }
}

/// `s` without its trailing white space.
pub open spec fn trim_end(s: Seq<u8>) -> Seq<u8>
    decreases s.len(),
{
    if s.len() > 0 && is_space(s.last()) {
        trim_end(s.drop_last())
    } else {
        s
    }
}

/// `s` without the white space at either end.
pub open spec fn trimmed(s: Seq<u8>) -> Seq<u8> {
    trim_end(trim_start(s))
}

/// Length of the longest prefix of `t` made of digits.
pub open spec fn leading_digits(t: Seq<u8>) -> nat
    decreases t.len(),
{
    if t.len() > 0 && is_digit(t[0]) {
        1 + leading_digits(t.drop_first())
    } else {
        0
    }
}

/// The digits before the point.
pub open spec fn integer_part(t: Seq<u8>) -> Seq<u8> {
    t.take(leading_digits(t) as int)
}

/// What follows the integer part: empty, or the point and what follows it.
pub open spec fn after_integer_part(t: Seq<u8>) -> Seq<u8> {
    t.skip(leading_digits(t) as int)
}

/// `t` is a decimal number: digits, optionally a point and more digits, with
/// at least one digit before or after the point.
pub open spec fn is_decimal(t: Seq<u8>) -> bool {
    let rest = after_integer_part(t);
    if rest.len() == 0 {
        integer_part(t).len() >= 1
    } else {
        &&& rest[0] == DECIMAL_POINT
        &&& all_digits(rest.drop_first())
        &&& integer_part(t).len() + rest.drop_first().len() >= 1
    }
}

/// The decimal number `t` rounded to the nearest integer, halves upward:
/// the integer part, and one more when the first digit after the point is
/// five or above.
pub open spec fn rounded(t: Seq<u8>) -> nat
    recommends
        is_decimal(t),
{
    let rest = after_integer_part(t);
    let up: nat = if rest.len() >= 2 && rest[1] >= DIGIT_FIVE {
        1
    } else {
        0
    };
    digits_value(integer_part(t)) + up
}

/// The smaller of a number and the largest reading.
pub open spec fn capped(n: nat) -> u8 {
    if n >= READING_MAX {
        READING_MAX
    } else {
        n as u8
    }
}

/// The brightness that `output` reports, if it reports one.
pub open spec fn brightness_of(output: Seq<u8>) -> Option<u8> {
    let token = trimmed(output);
    if is_decimal(token) {
        Some(capped(rounded(token)))
    } else {
        None
    }
}

/// A prefix of digits that ends at the end of `t`, or before a byte that is
/// no digit, is the longest one.
proof fn lemma_leading_digits(t: Seq<u8>, n: int)
    requires
        0 <= n <= t.len(),
        forall|k: int| 0 <= k < n ==> is_digit(#[trigger] t[k]),
        n == t.len() || !is_digit(t[n]),
    ensures
        leading_digits(t) == n,
    decreases n,
{
    if n > 0 {
        let rest = t.drop_first();
        assert forall|k: int| 0 <= k < n - 1 implies is_digit(#[trigger] rest[k]) by {
            assert(rest[k] == t[k + 1]);
        }
        lemma_leading_digits(rest, n - 1);
    }
}

/// The integer part is made of digits.
proof fn lemma_leading_digits_are_digits(t: Seq<u8>)
    ensures
        leading_digits(t) <= t.len(),
        all_digits(integer_part(t)),
    decreases t.len(),
{
    if t.len() > 0 && is_digit(t[0]) {
        let rest = t.drop_first();
        lemma_leading_digits_are_digits(rest);
        assert forall|i: int| 0 <= i < integer_part(t).len() implies is_digit(
            #[trigger] integer_part(t)[i],
        ) by {
            if i > 0 {
                assert(integer_part(t)[i] == integer_part(rest)[i - 1]);
            }
        }
    }
}

/// Tells whether a byte is ASCII white space.
fn space_byte(b: u8) -> (r: bool)
    ensures
        r == is_space(b),
{
    (9 <= b && b <= 13) || b == 32
}

/// Tells whether a byte is an ASCII digit.
fn digit_byte(b: u8) -> (r: bool)
    ensures
        r == is_digit(b),
{
    DIGIT_ZERO <= b && b <= DIGIT_NINE
}

/// Finds the token of `output`: the bounds of what is left when the white
/// space at both ends is taken away.
fn token_bounds(output: &[u8]) -> (bounds: (usize, usize))
    ensures
        bounds.0 <= bounds.1 <= output@.len(),
        trimmed(output@) == output@.subrange(bounds.0 as int, bounds.1 as int),
{
    let len = output.len();
    let ghost s = output@;
    let mut start: usize = 0;
    assert(s.subrange(0, len as int) =~= s);
    while start < len && space_byte(output[start])
        invariant
            s == output@,
            len == s.len(),
            start <= len,
            trim_start(s) == trim_start(s.subrange(start as int, len as int)),
        decreases len - start,
    {
        assert(s.subrange(start as int, len as int).drop_first() =~= s.subrange(
            start as int + 1,
            len as int,
        ));
        start = start + 1;
    }
    let ghost body = s.subrange(start as int, len as int);
    assert(trim_start(s) == body);
    let mut end: usize = len;
    while end > start && space_byte(output[end - 1])
        invariant
            s == output@,
            len == s.len(),
            start <= end <= len,
            body == s.subrange(start as int, len as int),
            trim_end(body) == trim_end(s.subrange(start as int, end as int)),
        decreases end - start,
    {
        assert(s.subrange(start as int, end as int).drop_last() =~= s.subrange(
            start as int,
            end as int - 1,
        ));
        end = end - 1;
    }
    (start, end)
}

/// Reads the brightness from what the backlight tool printed.
///
/// Returns a reading exactly when the output, without the white space
/// around it, is a decimal number; the reading is that number rounded to the
/// nearest integer and capped at 100.
pub fn parse_brightness(output: &[u8]) -> (reading: Option<u8>)
    ensures
        reading == brightness_of(output@),
        reading matches Some(b) ==> b <= READING_MAX,
{
    let (start, end) = token_bounds(output);
    let ghost t = output@.subrange(start as int, end as int);
    let mut i: usize = start;
    let mut value: u8 = 0;
    while i < end && digit_byte(output[i])
        invariant
            start <= i <= end <= output@.len(),
            t == output@.subrange(start as int, end as int),
            forall|k: int| 0 <= k < i - start ==> is_digit(#[trigger] t[k]),
            value == capped(digits_value(t.take(i - start))),
        decreases end - i,
    {
        let digit = output[i] - DIGIT_ZERO;
        assert(t.take(i - start + 1).drop_last() =~= t.take(i - start));
        assert(t.take(i - start + 1).last() == output@[i as int]);
        value = if value >= 10 {
            READING_MAX
        } else {
            value * 10 + digit
        };
        i = i + 1;
    }
    proof {
        lemma_leading_digits(t, i - start);
    }
    let ghost rest = after_integer_part(t);
    assert(rest =~= output@.subrange(i as int, end as int));
    if i == end {
        if i > start {
            Some(value)
        } else {
            None
        }
    } else if output[i] == DECIMAL_POINT {
        let mut j: usize = i + 1;
        while j < end && digit_byte(output[j])
            invariant
                i < j <= end <= output@.len(),
                rest == output@.subrange(i as int, end as int),
                forall|k: int| 0 <= k < j - i - 1 ==> is_digit(#[trigger] rest.drop_first()[k]),
            decreases end - j,
        {
            assert(rest.drop_first()[j - i - 1] == output@[j as int]);
            j = j + 1;
        }
        if j < end {
            assert(rest.drop_first()[j - i - 1] == output@[j as int]);
            None
        } else if end - start < 2 {
            None
        } else {
            if i + 1 < end && output[i + 1] >= DIGIT_FIVE && value < READING_MAX {
                Some(value + 1)
            } else {
                Some(value)
            }
        }
    } else {
        None
    }
}

/// Every byte is ASCII white space.
pub open spec fn all_spaces(s: Seq<u8>) -> bool {
    forall|i: int| 0 <= i < s.len() ==> is_space(#[trigger] s[i])
}

/// The digits after the point; empty where there is no point.
pub open spec fn fraction_part(t: Seq<u8>) -> Seq<u8> {
    let rest = after_integer_part(t);
    if rest.len() == 0 {
        rest
    } else {
        rest.drop_first()
    }
}

/// A token that neither begins nor ends with white space is its own
/// trimmed form.
proof fn lemma_trimmed_token(t: Seq<u8>)
    requires
        t.len() >= 1,
        !is_space(t[0]),
        !is_space(t.last()),
    ensures
        trimmed(t) == t,
{
}

/// White space in front is trimmed away whatever follows it.
proof fn lemma_trim_start_prefix(pre: Seq<u8>, s: Seq<u8>)
    requires
        all_spaces(pre),
    ensures
        trim_start(pre + s) == trim_start(s),
    decreases pre.len(),
{
    if pre.len() == 0 {
        assert(pre + s =~= s);
    } else {
        assert((pre + s)[0] == pre[0]);
        assert((pre + s).drop_first() =~= pre.drop_first() + s);
        lemma_trim_start_prefix(pre.drop_first(), s);
    }
}

/// White space at the end is trimmed away whatever stands before it.
proof fn lemma_trim_end_suffix(s: Seq<u8>, post: Seq<u8>)
    requires
        all_spaces(post),
    ensures
        trim_end(s + post) == trim_end(s),
    decreases post.len(),
{
    if post.len() == 0 {
        assert(s + post =~= s);
    } else {
        assert((s + post).last() == post.last());
        assert((s + post).drop_last() =~= s + post.drop_last());
        lemma_trim_end_suffix(s, post.drop_last());
    }
}

/// Trimming the front of a text with white space behind it leaves that
/// white space in place, unless the text is white space throughout.
proof fn lemma_trim_start_keeps_suffix(s: Seq<u8>, post: Seq<u8>)
    requires
        all_spaces(post),
    ensures
        trim_start(s).len() > 0 ==> trim_start(s + post) == trim_start(s) + post,
        trim_start(s).len() == 0 ==> trim_start(s + post).len() == 0,
    decreases s.len(),
{
    if s.len() == 0 {
        assert(s + post =~= post);
        lemma_trim_start_prefix(post, Seq::<u8>::empty());
        assert(post + Seq::<u8>::empty() =~= post);
    } else if is_space(s[0]) {
        assert((s + post)[0] == s[0]);
        assert((s + post).drop_first() =~= s.drop_first() + post);
        lemma_trim_start_keeps_suffix(s.drop_first(), post);
    } else {
        assert((s + post)[0] == s[0]);
    }
}

/// White space around the output changes nothing of what it reports.
pub proof fn lemma_white_space_around_is_ignored(pre: Seq<u8>, s: Seq<u8>, post: Seq<u8>)
    requires
        all_spaces(pre),
        all_spaces(post),
    ensures
        trimmed(pre + s + post) == trimmed(s),
        brightness_of(pre + s + post) == brightness_of(s),
{
    assert(pre + s + post =~= pre + (s + post));
    lemma_trim_start_prefix(pre, s + post);
    lemma_trim_start_keeps_suffix(s, post);
    if trim_start(s).len() > 0 {
        lemma_trim_end_suffix(trim_start(s), post);
    } else {
        assert(trim_start(s + post) =~= trim_start(s));
    }
}

/// What is written in decimal notation is read back as written: the
/// reading of the text of `n` is `n` for every `n` up to 100, and 100 for
/// every `n` above.
pub proof fn lemma_reads_back_decimal_text(n: nat)
    ensures
        brightness_of(ascii_bytes(decimal_text(n))) == Some(capped(n)),
        n <= READING_MAX ==> brightness_of(ascii_bytes(decimal_text(n))) == Some(n as u8),
{
    let t = ascii_bytes(decimal_text(n));
    lemma_decimal_text_writes(n);
    lemma_trimmed_token(t);
    lemma_leading_digits(t, t.len() as int);
    assert(t.take(t.len() as int) =~= t);
    assert(t.skip(t.len() as int) =~= Seq::<u8>::empty());
}

/// The text of `n`, a point and any digits read as `n`, or as `n + 1` when
/// the first digit after the point is five or above; never as more than 100.
pub proof fn lemma_reads_decimal_text_with_fraction(n: nat, fraction: Seq<u8>)
    requires
        all_digits(fraction),
    ensures
        brightness_of(ascii_bytes(decimal_text(n)) + seq![DECIMAL_POINT] + fraction) == Some(
            capped(
                if fraction.len() > 0 && fraction[0] >= DIGIT_FIVE {
                    n + 1
                } else {
                    n
                },
            ),
        ),
{
    let whole = ascii_bytes(decimal_text(n));
    let t = whole + seq![DECIMAL_POINT] + fraction;
    lemma_decimal_text_writes(n);
    assert(t[0] == whole[0]);
    assert(t.last() == if fraction.len() > 0 {
        fraction.last()
    } else {
        DECIMAL_POINT
    });
    lemma_trimmed_token(t);
    assert forall|k: int| 0 <= k < whole.len() implies is_digit(#[trigger] t[k]) by {
        assert(t[k] == whole[k]);
    }
    assert(t[whole.len() as int] == DECIMAL_POINT);
    lemma_leading_digits(t, whole.len() as int);
    assert(integer_part(t) =~= whole);
    assert(after_integer_part(t) =~= seq![DECIMAL_POINT] + fraction);
    assert(after_integer_part(t).drop_first() =~= fraction);
}

/// The reading rule rounds to the nearest integer, halves upward.
///
/// A decimal number with `k` digits after the point is the number written
/// by all its digits, divided by `10^k`. The lemma states, free of
/// fractions, that this number lies at least at `rounded - 1/2` and below
/// `rounded + 1/2`.
pub proof fn lemma_rounded_is_nearest(t: Seq<u8>)
    requires
        is_decimal(t),
    ensures
        ({
            let k = fraction_part(t).len();
            let scaled = digits_value(integer_part(t) + fraction_part(t));
            &&& (2 * rounded(t) - 1) * pow10(k) <= 2 * scaled
            &&& 2 * scaled < (2 * rounded(t) + 1) * pow10(k)
        }),
{
    let whole = integer_part(t);
    let fraction = fraction_part(t);
    let k = fraction.len();
    let a = digits_value(whole);
    let f = digits_value(fraction);
    lemma_leading_digits_are_digits(t);
    lemma_digits_value_concat(whole, fraction);
    if k == 0 {
        assert(rounded(t) == a);
        assert(pow10(0) == 1);
        assert(a * 1 == a) by (nonlinear_arith);
    } else {
        let rest = after_integer_part(t);
        assert(rest.drop_first() == fraction);
        assert(rest[1] == fraction[0]);
        let tail = fraction.drop_first();
        assert forall|i: int| 0 <= i < tail.len() implies is_digit(#[trigger] tail[i]) by {
            assert(tail[i] == fraction[i + 1]);
        }
        lemma_digits_value_bound(tail);
        let lead = seq![fraction[0]];
        assert(lead + tail =~= fraction);
        assert(is_digit(fraction[0]));
        lemma_digits_value_concat(lead, tail);
        assert(lead.drop_last() =~= Seq::<u8>::empty());
        assert(digits_value(lead.drop_last()) == 0);
        let d = (fraction[0] - DIGIT_ZERO) as nat;
        assert(digits_value(lead) == d);
        let p = pow10(tail.len());
        let g = digits_value(tail);
        assert(pow10(k) == 10 * p);
        assert(f == d * p + g);
        assert(is_digit(fraction[0]));
        let r = rounded(t);
        if fraction[0] >= DIGIT_FIVE {
            assert(r == a + 1);
            assert((2 * r - 1) * (10 * p) <= 2 * (a * (10 * p) + (d * p + g)) && 2 * (a * (10 * p)
                + (d * p + g)) < (2 * r + 1) * (10 * p)) by (nonlinear_arith)
                requires
                    r == a + 1,
                    5 <= d <= 9,
                    0 <= g < p,
            ;
        } else {
            assert(r == a);
            assert((2 * r - 1) * (10 * p) <= 2 * (a * (10 * p) + (d * p + g)) && 2 * (a * (10 * p)
                + (d * p + g)) < (2 * r + 1) * (10 * p)) by (nonlinear_arith)
                requires
                    r == a,
                    0 <= d <= 4,
                    0 <= g < p,
            ;
        }
    }
}

} // verus!
