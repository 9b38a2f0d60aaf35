//! The two small grammars that the probe's text fields are read with:
//! unsigned decimal numbers, and frame rates written as `numerator/denominator`.

use vstd::prelude::*;
use vstd::utf8::{encode_utf8, encode_utf8_decode_utf8};

verus! {

/// Whether two strings hold the same characters.
pub fn same_text(a: &str, b: &str) -> (same: bool)
    ensures
        same == (a@ == b@),
{
    let x = a.as_bytes();
    let y = b.as_bytes();
    proof {
        encode_utf8_decode_utf8(a@);
        encode_utf8_decode_utf8(b@);
    }
    if x.len() != y.len() {
        return false;
    }
    let mut i: usize = 0;
    while i < x.len()
        invariant
            i <= x.len(),
            x.len() == y.len(),
            x@ == encode_utf8(a@),
            y@ == encode_utf8(b@),
            forall|k: int| 0 <= k < i ==> x[k] == y[k],
        decreases x.len() - i,
    {
        if x[i] != y[i] {
            return false;
        }
        i = i + 1;
    }
    assert(x@ =~= y@);
    true
}

/// Whether `c` is one of the ten decimal digits.
pub open spec fn is_digit(c: char) -> bool {
    '0' <= c <= '9'
}

/// The number that a run of decimal digits denotes, most significant first.
pub open spec fn digits_value(digits: Seq<char>) -> nat
    decreases digits.len(),
{
    if digits.len() == 0 {
        0
    } else {
        (10 * digits_value(digits.drop_last()) + (digits.last() as u32 - '0' as u32)) as nat
    }
}

/// Whether every character of `digits` is a decimal digit.
pub open spec fn all_digits(digits: Seq<char>) -> bool {
    forall|i: int| 0 <= i < digits.len() ==> is_digit(#[trigger] digits[i])
}

/// `text` without one leading `+`.
pub open spec fn unsigned_part(text: Seq<char>) -> Seq<char> {
    if text.len() > 0 && text[0] == '+' {
        text.drop_first()
    } else {
        text
    }
}

/// The number that `text` denotes as an unsigned decimal of 64 bits: an
/// optional `+`, then one or more digits and nothing else, with a value of at
/// most 2^64 - 1. Any other text denotes no number.
pub open spec fn decimal_u64(text: Seq<char>) -> Option<u64> {
    let digits = unsigned_part(text);
    if digits.len() > 0 && all_digits(digits) && digits_value(digits) <= u64::MAX {
        Some(digits_value(digits) as u64)
    } else {
        None
    }
}

/// A run of digits denotes at least what any of its prefixes denotes.
pub proof fn lemma_digits_value_grows(digits: Seq<char>, k: int)
    requires
        0 <= k <= digits.len(),
        all_digits(digits),
    ensures
        digits_value(digits.take(k)) <= digits_value(digits),
    decreases digits.len() - k,
{
    if k == digits.len() {
        assert(digits.take(k) =~= digits);
    } else {
        lemma_digits_value_grows(digits, k + 1);
        assert(digits.take(k + 1).drop_last() =~= digits.take(k));
        assert(is_digit(digits.take(k + 1).last()));
    }
}

/// How many of the digits have been read once `index` characters of a text
/// whose digits start at `shift` have gone by.
spec fn digits_read(index: int, shift: int) -> int {
    if index > shift {
        index - shift
    } else {
        0
    }
}

/// Reads `text` as an unsigned decimal number of 64 bits.
pub fn parse_u64(text: &str) -> (number: Option<u64>)
    ensures
        number == decimal_u64(text@),
{
    let ghost digits = unsigned_part(text@);
    let ghost shift: int = text@.len() - digits.len();
    let mut value: u64 = 0;
    let mut at_start: bool = true;
    let mut any: bool = false;
    for c in it: text.chars()
        invariant
            it.seq() == text@,
            digits == unsigned_part(text@),
            shift == text@.len() - digits.len(),
            0 <= shift <= 1,
            at_start == (it.index() == 0),
            any == (it.index() > shift),
            all_digits(digits.take(digits_read(it.index() as int, shift))),
            value == digits_value(digits.take(digits_read(it.index() as int, shift))),
    {
        let ghost k: int = digits_read(it.index() as int, shift);
        if at_start && c == '+' {
            at_start = false;
        } else {
            at_start = false;
            assert(0 <= k < digits.len());
            assert(digits[k] == c);
            if !(c >= '0' && c <= '9') {
                assert(!is_digit(digits[k]));
                return None;
            }
            let digit: u64 = (c as u32 - '0' as u32) as u64;
            proof {
                assert(digits.take(k + 1).drop_last() =~= digits.take(k));
                assert(digits.take(k + 1).last() == c);
                assert(digits_value(digits.take(k + 1)) == 10 * value + digit);
                assert forall|i: int| 0 <= i < k + 1 implies is_digit(
                    #[trigger] digits.take(k + 1)[i],
                ) by {
                    if i < k {
                        assert(digits.take(k)[i] == digits.take(k + 1)[i]);
                    }
                }
            }
            if value > (u64::MAX - digit) / 10 {
                proof {
                    if all_digits(digits) {
                        lemma_digits_value_grows(digits, k + 1);
                    }
                }
                return None;
            }
            value = value * 10 + digit;
            any = true;
        }
    }
    proof {
        assert(digits.take(digits.len() as int) =~= digits);
    }
    if any {
        Some(value)
    } else {
        None
    }
}

/// Whether `rate` has its one and only `/` at index `at`.
pub open spec fn splits_at(rate: Seq<char>, at: int) -> bool {
    &&& 0 <= at < rate.len()
    &&& rate[at] == '/'
    &&& forall|k: int| 0 <= k < rate.len() && k != at ==> rate[k] != '/'
}

/// The numerator and the denominator of a frame rate written as
/// `numerator/denominator`: what stands before and after the one `/`. A text
/// with no `/`, or with more than one, has no parts.
pub open spec fn rate_parts(rate: Seq<char>) -> Option<(Seq<char>, Seq<char>)> {
    if exists|at: int| splits_at(rate, at) {
        let at = choose|at: int| splits_at(rate, at);
        Some((rate.take(at), rate.skip(at + 1)))
    } else {
        None
    }
}

/// What a pair of strings holds, if there is one.
pub open spec fn pair_text(parts: Option<(String, String)>) -> Option<(Seq<char>, Seq<char>)> {
    match parts {
        Some((first, second)) => Some((first@, second@)),
        None => None,
    }
}

/// Splits a frame rate at its one `/`.
pub fn split_rate(rate: &str) -> (parts: Option<(String, String)>)
    ensures
        pair_text(parts) == rate_parts(rate@),
{
    let total = rate.unicode_len();
    let mut first: Option<usize> = None;
    let mut i: usize = 0;
    for c in it: rate.chars()
        invariant
            it.seq() == rate@,
            total == rate@.len(),
            i == it.index(),
            match first {
                Some(p) => p < i && rate@[p as int] == '/' && forall|k: int|
                    0 <= k < i && k != p ==> rate@[k] != '/',
                None => forall|k: int| 0 <= k < i ==> rate@[k] != '/',
            },
    {
        if c == '/' {
            match first {
                Some(p) => {
                    assert forall|at: int| !splits_at(rate@, at) by {
                        if splits_at(rate@, at) {
                            if at == p as int {
                                assert(rate@[i as int] == '/');
                            } else {
                                assert(rate@[p as int] == '/');
                            }
                        }
                    }
                    return None;
                },
                None => {
                    first = Some(i);
                },
            }
        }
        i = i + 1;
    }
    match first {
        Some(p) => {
            assert(splits_at(rate@, p as int));
            let ghost at = choose|at: int| splits_at(rate@, at);
            assert(at == p);
            let numerator = rate.substring_char(0, p).to_owned();
            let denominator = rate.substring_char(p + 1, total).to_owned();
            assert(rate@.take(p as int) =~= rate@.subrange(0, p as int));
            assert(rate@.skip(p + 1) =~= rate@.subrange(p + 1, total as int));
            Some((numerator, denominator))
        },
        None => {
            assert forall|at: int| !splits_at(rate@, at) by {}
            None
        },
    }
}

} // verus!
