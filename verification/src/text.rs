//! Texts that come from form fields: telling labels apart and reading a
//! count out of what was typed.

use vstd::prelude::*;
use vstd::string::StrSliceExecFns;

verus! {

/// Compares two texts with `==` of `str`, which holds exactly when both are
/// made of the same characters in the same order. Taken on trust.
#[verifier::external_body]
pub(crate) fn same_text(left: &str, right: &str) -> (same: bool)
    ensures
        same == (left@ == right@),
{
    left == right
}

/// The character is one of `0` to `9`.
pub open spec fn is_digit(c: char) -> bool {
    '0' <= c <= '9'
}

/// The number that a run of decimal digits writes, first digit first.
pub open spec fn decimal(digits: Seq<char>) -> nat
    decreases digits.len(),
{
    if digits.len() == 0 {
        0
    } else {
        decimal(digits.drop_last()) * 10 + (digits.last() as nat - '0' as nat) as nat
    }
}

/// The digits of a typed count: the text itself, or what follows one
/// leading `+`.
pub open spec fn digits_of(text: Seq<char>) -> Seq<char> {
    if text.len() > 0 && text[0] == '+' {
        text.drop_first()
    } else {
        text
    }
}

/// The count that a text writes, if it writes one: at least one decimal
/// digit and nothing else but an optional leading `+`, with a value that
/// fits in `usize`.
pub open spec fn written_count(text: Seq<char>) -> Option<usize> {
    let digits = digits_of(text);
    if digits.len() > 0 && (forall|i: int| 0 <= i < digits.len() ==> is_digit(#[trigger] digits[i]))
        && decimal(digits) <= usize::MAX {
        Some(decimal(digits) as usize)
    } else {
        None
    }
}

/// Longer runs of digits write numbers at least as great as their
/// beginnings do.
proof fn lemma_decimal_grows(digits: Seq<char>, upto: int)
    requires
        0 <= upto <= digits.len(),
        forall|i: int| 0 <= i < digits.len() ==> is_digit(#[trigger] digits[i]),
    ensures
        decimal(digits.take(upto)) <= decimal(digits),
    decreases digits.len() - upto,
{
    if upto == digits.len() {
        assert(digits.take(upto) =~= digits);
    } else {
        lemma_decimal_grows(digits, upto + 1);
        lemma_decimal_next(digits, upto);
    }
}

/// One digit more multiplies by ten and adds the digit.
proof fn lemma_decimal_next(digits: Seq<char>, upto: int)
    requires
        0 <= upto < digits.len(),
        is_digit(digits[upto]),
    ensures
        decimal(digits.take(upto + 1)) == decimal(digits.take(upto)) * 10 + (digits[upto] as nat
            - '0' as nat),
{
    assert(digits.take(upto + 1).drop_last() =~= digits.take(upto));
}

/// Reads the count that a text writes, as [`written_count`] defines it.
pub fn read_count(text: &str) -> (count: Option<usize>)
    ensures
        count == written_count(text@),
{
    broadcast use vstd::string::is_ascii_spec_bytes;

    if !text.is_ascii() {
        proof {
            let digits = digits_of(text@);
            let odd = choose|i: int| 0 <= i < text@.len() && !('\0' <= #[trigger] text@[i] <= '\u{7f}');
            if text@.len() > 0 && text@[0] == '+' {
                assert(odd > 0);
                assert(digits[odd - 1] == text@[odd]);
                assert(!is_digit(digits[odd - 1]));
            } else {
                assert(!is_digit(digits[odd]));
            }
        }
        return None;
    }
    let length = text.unicode_len();
    let start: usize = if length > 0 && text.get_ascii(0) == 43 {
        1
    } else {
        0
    };
    let ghost digits = digits_of(text@);
    assert(digits =~= text@.skip(start as int));
    if start == length {
        return None;
    }
    let mut value: usize = 0;
    let mut at: usize = start;
    assert(digits.take(0) =~= Seq::<char>::empty());
    while at < length
        invariant
            start <= at <= length,
            length == text@.len(),
            text.is_ascii(),
            digits == text@.skip(start as int),
            digits == digits_of(text@),
            forall|i: int| 0 <= i < at - start ==> is_digit(#[trigger] digits[i]),
            value == decimal(digits.take(at - start)),
        decreases length - at,
    {
        let byte = text.get_ascii(at);
        assert(digits[at - start] == text@[at as int]);
        if byte < 48 || byte > 57 {
            assert(!is_digit(digits[at - start]));
            return None;
        }
        assert(is_digit(digits[at - start]));
        let digit = (byte - 48) as usize;
        assert(digit == digits[at - start] as nat - '0' as nat);
        proof {
            lemma_decimal_next(digits, at - start);
        }
        let next = match value.checked_mul(10) {
            Some(tenfold) => tenfold.checked_add(digit),
            None => None,
        };
        match next {
            Some(sum) => {
                value = sum;
            },
            None => {
                proof {
                    if forall|i: int| 0 <= i < digits.len() ==> is_digit(#[trigger] digits[i]) {
                        lemma_decimal_grows(digits, at - start + 1);
                    }
                }
                return None;
            },
        }
        at += 1;
    }
    assert(digits.take(at - start) =~= digits);
    Some(value)
}

/// The count typed into a number field. A text that writes no count stands
/// for zero.
pub fn count_or_zero(text: &str) -> (count: usize)
    ensures
        count == match written_count(text@) {
            Some(written) => written,
            None => 0,
        },
{
    match read_count(text) {
        Some(written) => written,
        None => 0,
    }
}

} // verus!
