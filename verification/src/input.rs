//! Validation of the worker-count text field.
use vstd::prelude::*;

verus! {

/// Whether `c` is one of the ASCII digits `0` to `9`.
pub open spec fn is_digit(c: char) -> bool {
    48 <= c as int <= 57
}

/// The number that a sequence of ASCII digits denotes in base ten.
pub open spec fn decimal_value(digits: Seq<char>) -> nat
    decreases digits.len(),
{
    if digits.len() == 0 {
        0
    } else {
        (decimal_value(digits.drop_last()) * 10 + (digits.last() as int - 48)) as nat
    }
}

/// The digits of a number text: the text without one leading plus sign.
pub open spec fn digits_of(text: Seq<char>) -> Seq<char> {
    if text.len() > 0 && text[0] == '+' {
        text.skip(1)
    } else {
        text
    }
}

/// Whether `text` is an optional plus sign followed by one or more digits.
pub open spec fn is_number_text(text: Seq<char>) -> bool {
    let digits = digits_of(text);
    digits.len() > 0 && forall|i: int| 0 <= i < digits.len() ==> is_digit(#[trigger] digits[i])
}

/// The worker count that `text` denotes: a positive integer that fits the
/// machine word, written in decimal with an optional leading plus sign.
/// Anything else denotes no worker count.
pub open spec fn worker_count_of(text: Seq<char>) -> Option<usize> {
    let value = decimal_value(digits_of(text));
    if is_number_text(text) && 0 < value <= usize::MAX {
        Some(value as usize)
    } else {
        None
    }
}

/// A prefix of a digit sequence denotes no more than the whole sequence.
pub proof fn lemma_decimal_value_prefix(digits: Seq<char>, n: int)
    requires
        0 <= n <= digits.len(),
        forall|i: int| 0 <= i < digits.len() ==> is_digit(#[trigger] digits[i]),
    ensures
        decimal_value(digits.take(n)) <= decimal_value(digits),
    decreases digits.len(),
{
    if n == digits.len() {
        assert(digits.take(n) =~= digits);
    } else {
        let shorter = digits.drop_last();
        assert(shorter.take(n) =~= digits.take(n));
        lemma_decimal_value_prefix(shorter, n);
        assert(is_digit(digits[digits.len() - 1]));
    }
}

/// Reads the worker-count field.
///
/// Returns the count when the text is a positive decimal integer that fits
/// `usize`, and `None` for every other text: empty, signed with a minus,
/// holding a non-digit, zero, or too large.
pub fn parse_worker_count(text: &str) -> (count: Option<usize>)
    ensures
        count == worker_count_of(text@),
{
    let len: usize = text.unicode_len();
    let start: usize = if len > 0 && text.get_char(0) == '+' { 1 } else { 0 };
    if start == len {
        return None;
    }
    let ghost digits = digits_of(text@);
    assert(digits.len() == len - start);
    assert(forall|k: int| 0 <= k < digits.len() ==> digits[k] == text@[k + start]);
    let mut value: usize = 0;
    let mut i: usize = start;
    while i < len
        invariant
            start <= i <= len,
            len == text@.len(),
            digits == digits_of(text@),
            digits.len() == len - start,
            forall|k: int| 0 <= k < digits.len() ==> digits[k] == text@[k + start],
            forall|k: int| 0 <= k < i - start ==> is_digit(#[trigger] digits[k]),
            value == decimal_value(digits.take(i - start)),
        decreases len - i,
    {
        let c: char = text.get_char(i);
        if c < '0' || c > '9' {
            assert(!is_digit(digits[i - start]));
            return None;
        }
        let d: usize = (c as u32 - 48) as usize;
        proof {
            let next = digits.take(i - start + 1);
            assert(next.drop_last() =~= digits.take(i - start));
            assert(next.last() == c);
            assert(decimal_value(next) == value * 10 + d);
            if is_number_text(text@) {
                lemma_decimal_value_prefix(digits, i - start + 1);
            }
        }
        if value > (usize::MAX - d) / 10 {
            return None;
        }
        value = value * 10 + d;
        i = i + 1;
    }
    assert(digits.take(len - start) =~= digits);
    if value == 0 {
        None
    } else {
        Some(value)
    }
}

} // verus!
