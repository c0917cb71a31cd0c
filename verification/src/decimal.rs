//! Unsigned decimal numbers, read from bytes and written as text.

use vstd::prelude::*;
use crate::text::ascii_text;

verus! {

/// Whether `b` is one of the ASCII digits `0` to `9`.
pub open spec fn is_digit(b: u8) -> bool {
    0x30 <= b <= 0x39
}

/// Whether `digits` holds ASCII digits only.
pub open spec fn all_digits(digits: Seq<u8>) -> bool {
    forall|i: int| 0 <= i < digits.len() ==> is_digit(#[trigger] digits[i])
}

/// The number that a run of ASCII digits denotes in base ten.
pub open spec fn digits_value(digits: Seq<u8>) -> nat
    decreases digits.len(),
{
    if digits.len() == 0 {
        0
    } else {
        10 * digits_value(digits.drop_last()) + (digits.last() - 0x30) as nat
    }
}

/// `text` without the one `+` that may lead it.
pub open spec fn unsigned_part(text: Seq<u8>) -> Seq<u8> {
    if text.len() > 0 && text[0] == 0x2b {
        text.drop_first()
    } else {
        text
    }
}

/// The number that `text` denotes: an optional `+`, then one or more ASCII
/// digits whose value fits 64 bits. Any other text denotes nothing.
pub open spec fn decimal_value(text: Seq<u8>) -> Option<u64> {
    let digits = unsigned_part(text);
    if digits.len() > 0 && all_digits(digits) && digits_value(digits) <= u64::MAX {
        Some(digits_value(digits) as u64)
    } else {
        None
    }
}

/// The ASCII digits of `n` in base ten, without leading zeros.
pub open spec fn decimal_digits(n: nat) -> Seq<u8>
    decreases n,
{
    if n < 10 {
        seq![(0x30 + n) as u8]
    } else {
        decimal_digits(n / 10).push((0x30 + n % 10) as u8)
    }
}

/// `n` written in base ten.
pub open spec fn decimal_text(n: nat) -> Seq<char> {
    ascii_text(decimal_digits(n))
}

/// A number is at least what any of its leading digits denote.
proof fn lemma_prefix_value(digits: Seq<u8>, k: int)
    requires
        all_digits(digits),
        0 <= k <= digits.len(),
    ensures
        digits_value(digits.take(k)) <= digits_value(digits),
    decreases digits.len(),
{
    if k == digits.len() {
        assert(digits.take(k) =~= digits);
    } else {
        assert(is_digit(digits[digits.len() - 1]));
        assert(digits.drop_last().take(k) =~= digits.take(k));
        lemma_prefix_value(digits.drop_last(), k);
    }
}

/// Reads an unsigned decimal number: an optional `+`, then digits. Returns
/// `None` for empty text, for any other character, and for a value that
/// does not fit 64 bits.
pub fn parse_decimal(text: &[u8]) -> (value: Option<u64>)
    ensures
        value == decimal_value(text@),
{
    let len: usize = text.len();
    let first: usize = if len > 0 && text[0] == 0x2b { 1 } else { 0 };
    let ghost digits = unsigned_part(text@);
    assert(digits =~= text@.subrange(first as int, len as int));
    if first == len {
        return None;
    }
    let mut acc: u64 = 0;
    let mut i: usize = first;
    while i < len
        invariant
            first <= i <= len == text@.len(),
            digits == unsigned_part(text@),
            digits == text@.subrange(first as int, len as int),
            all_digits(digits.take(i - first)),
            acc == digits_value(digits.take(i - first)),
        decreases len - i,
    {
        let b: u8 = text[i];
        if b < 0x30 || b > 0x39 {
            assert(!is_digit(digits[i - first]));
            return None;
        }
        let ghost seen = digits.take(i - first + 1);
        proof {
            assert(seen.drop_last() =~= digits.take(i - first));
            assert(seen.last() == b);
            assert(all_digits(seen));
            if all_digits(digits) {
                lemma_prefix_value(digits, i - first + 1);
            }
        }
        let tens: u64 = match acc.checked_mul(10) {
            Some(t) => t,
            None => { return None; },
        };
        acc = match tens.checked_add((b - 0x30) as u64) {
            Some(v) => v,
            None => { return None; },
        };
        i = i + 1;
    }
    assert(digits.take(i - first) =~= digits);
    Some(acc)
}

/// Appends `n`, written in base ten, to `out`.
fn push_decimal(out: &mut String, n: u64)
    ensures
        final(out)@ == old(out)@ + decimal_text(n as nat),
    decreases n,
{
    if n >= 10 {
        push_decimal(out, n / 10);
    }
    let digit: u8 = 0x30 + (n % 10) as u8;
    out.push(digit as char);
    proof {
        let n = n as nat;
        if n >= 10 {
            assert(ascii_text(decimal_digits(n)) =~= ascii_text(decimal_digits(n / 10)).push(
                digit as char,
            ));
            assert(final(out)@ =~= old(out)@ + decimal_text(n));
        } else {
            assert(ascii_text(decimal_digits(n)) =~= seq![digit as char]);
            assert(final(out)@ =~= old(out)@ + decimal_text(n));
        }
    }
}

/// Writes `n` in base ten, without sign or leading zeros.
pub fn format_decimal(n: u64) -> (text: String)
    ensures
        text@ == decimal_text(n as nat),
{
    let mut out = String::new();
    push_decimal(&mut out, n);
    assert(Seq::<char>::empty() + decimal_text(n as nat) =~= decimal_text(n as nat));
    out
}

/// The digits of a number are digits, at least one, and denote the number.
pub proof fn lemma_digits_of_number(n: nat)
    ensures
        decimal_digits(n).len() > 0,
        all_digits(decimal_digits(n)),
        digits_value(decimal_digits(n)) == n,
    decreases n,
{
    let digits = decimal_digits(n);
    if n < 10 {
        assert(digits.drop_last() =~= Seq::<u8>::empty());
        assert(digits_value(digits.drop_last()) == 0);
        assert(digits.last() == 0x30 + n);
    } else {
        lemma_digits_of_number(n / 10);
        assert(digits.drop_last() =~= decimal_digits(n / 10));
        assert(digits.last() == 0x30 + n % 10);
    }
}

/// Reading back what was written gives the number: for every `n` of 64
/// bits, the digits of `n` denote `n`.
pub proof fn lemma_decimal_round_trip(n: u64)
    ensures
        decimal_value(decimal_digits(n as nat)) == Some(n),
{
    lemma_digits_of_number(n as nat);
    let digits = decimal_digits(n as nat);
    assert(is_digit(digits[0]));
}

} // verus!
