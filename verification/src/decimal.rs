//! Reading an unsigned decimal number, such as a guild identifier.

use vstd::prelude::*;
use vstd::string::*;

verus! {

/// Whether a character is a decimal digit.
pub open spec fn is_digit(c: char) -> bool {
    '0' as u32 <= c as u32 <= '9' as u32
}

/// The number that a run of decimal digits stands for.
pub open spec fn digits_value(digits: Seq<char>) -> nat
    decreases digits.len(),
{
    if digits.len() == 0 {
        0
    } else {
        digits_value(digits.drop_last()) * 10 + (digits.last() as u32 - '0' as u32) as nat
    }
}

/// Whether every character of a text is a decimal digit.
pub open spec fn all_digits(digits: Seq<char>) -> bool {
    forall|i: int| 0 <= i < digits.len() ==> is_digit(#[trigger] digits[i])
}

/// The text without its leading `+`, if it has one.
pub open spec fn unsigned_part(text: Seq<char>) -> Seq<char> {
    if text.len() > 0 && text[0] == '+' {
        text.skip(1)
    } else {
        text
    }
}

/// The number that a decimal text stands for: an optional `+`, then one or
/// more digits whose value fits in 64 bits. Any other text stands for none.
pub open spec fn decimal_u64(text: Seq<char>) -> Option<u64> {
    let digits = unsigned_part(text);
    if digits.len() > 0 && all_digits(digits) && digits_value(digits) <= u64::MAX {
        Some(digits_value(digits) as u64)
    } else {
        None
    }
}

/// A prefix of a run of digits never stands for more than the whole run.
pub proof fn prefix_value_bounded(digits: Seq<char>, k: int)
    requires
        0 <= k <= digits.len(),
    ensures
        digits_value(digits.take(k)) <= digits_value(digits),
    decreases digits.len(),
{
    if k == digits.len() {
        assert(digits.take(k) =~= digits);
    } else {
        prefix_value_bounded(digits.drop_last(), k);
        assert(digits.drop_last().take(k) =~= digits.take(k));
    }
}

/// Reads an unsigned decimal number: an optional `+` followed by digits.
/// An empty text, any other character and a value beyond 64 bits give `None`.
pub fn parse_decimal(text: &str) -> (r: Option<u64>)
    ensures
        r == decimal_u64(text@),
{
    let n: usize = text.unicode_len();
    let mut i: usize = 0;
    if n > 0 && text.get_char(0) == '+' {
        i = 1;
    }
    let first: usize = i;
    let ghost digits = unsigned_part(text@);
    assert(digits =~= text@.skip(first as int));
    if i == n {
        return None;
    }
    let mut acc: u64 = 0;
    assert(digits.take(0) =~= Seq::<char>::empty());
    while i < n
        invariant
            first <= i <= n,
            n == text@.len(),
            digits == text@.skip(first as int),
            digits == unsigned_part(text@),
            forall|j: int| 0 <= j < i - first ==> is_digit(#[trigger] digits[j]),
            acc == digits_value(digits.take(i - first)),
        decreases n - i,
    {
        let c: char = text.get_char(i);
        let d: u32 = c as u32;
        proof {
            assert(digits[i - first] == c);
            assert(digits.take(i - first + 1).drop_last() =~= digits.take(i - first));
            assert(digits.take(i - first + 1).last() == c);
        }
        if d < 48 || d > 57 {
            assert(!is_digit(digits[i - first]));
            return None;
        }
        let v: u64 = (d - 48) as u64;
        if acc > (u64::MAX - v) / 10 {
            proof {
                prefix_value_bounded(digits, i - first + 1);
            }
            return None;
        }
        acc = acc * 10 + v;
        i += 1;
    }
    assert(digits.take(i - first) =~= digits);
    Some(acc)
}

} // verus!
