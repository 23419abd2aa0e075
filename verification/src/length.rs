//! Reading a declared body length: the decimal grammar of a `Content-Length`
//! value.

use vstd::prelude::*;

verus! {

/// Whether the byte is an ASCII decimal digit.
pub open spec fn is_digit(byte: u8) -> bool {
    0x30 <= byte <= 0x39
}

/// Whether every byte is an ASCII decimal digit.
pub open spec fn all_digits(bytes: Seq<u8>) -> bool {
    forall|i: int| 0 <= i < bytes.len() ==> is_digit(#[trigger] bytes[i])
}

/// The number that a run of decimal digits writes.
pub open spec fn decimal_value(digits: Seq<u8>) -> nat
    decreases digits.len(),
{
    if digits.len() == 0 {
        0
    } else {
        decimal_value(digits.drop_last()) * 10 + (digits.last() - 0x30) as nat
    }
}

/// The digits of a length: the text itself, without the plus sign that may
/// lead it.
pub open spec fn digits_of(text: Seq<u8>) -> Seq<u8> {
    if text.len() > 0 && text[0] == 0x2b {
        text.skip(1)
    } else {
        text
    }
}

/// The length that a header value declares: at least one decimal digit,
/// nothing but digits after an optional plus sign, and a value that fits in
/// 64 bits. Anything else declares nothing.
pub open spec fn declared_length(text: Seq<u8>) -> Option<u64> {
    let digits = digits_of(text);
    if digits.len() > 0 && all_digits(digits) && decimal_value(digits) <= u64::MAX {
        Some(decimal_value(digits) as u64)
    } else {
        None
    }
}

/// Reading more digits never makes the number smaller.
pub proof fn lemma_decimal_value_grows(digits: Seq<u8>, shorter: int)
    requires
        all_digits(digits),
        0 <= shorter <= digits.len(),
    ensures
        decimal_value(digits.take(shorter)) <= decimal_value(digits),
    decreases digits.len() - shorter,
{
    if shorter == digits.len() {
        assert(digits.take(shorter) =~= digits);
    } else {
        let front = digits.drop_last();
        assert(all_digits(front)) by {
            assert forall|i: int| 0 <= i < front.len() implies is_digit(#[trigger] front[i]) by {
                assert(front[i] == digits[i]);
            }
        }
        assert(is_digit(digits[digits.len() - 1]));
        if shorter == front.len() {
            assert(digits.take(shorter) =~= front);
        } else {
            lemma_decimal_value_grows(front, shorter);
            assert(front.take(shorter) =~= digits.take(shorter));
        }
    }
}

/// The length that a `Content-Length` value declares, if it declares one.
pub fn parse_content_length(text: &[u8]) -> (length: Option<u64>)
    ensures
        length == declared_length(text@),
{
    let size: usize = text.len();
    let first: usize = if size > 0 && text[0] == 0x2b {
        1
    } else {
        0
    };
    let ghost digits = digits_of(text@);
    proof {
        assert(digits =~= text@.skip(first as int));
    }
    if first == size {
        return None;
    }
    let mut value: u64 = 0;
    let mut at: usize = first;
    while at < size
        invariant
            first <= at <= size,
            size == text@.len(),
            digits == text@.skip(first as int),
            digits == digits_of(text@),
            all_digits(digits.take(at - first)),
            value == decimal_value(digits.take(at - first)),
        decreases size - at,
    {
        let byte: u8 = text[at];
        let ghost seen = digits.take(at - first);
        let ghost next = digits.take(at - first + 1);
        proof {
            assert(next.drop_last() =~= seen);
            assert(next.last() == byte);
        }
        if byte < 0x30 || byte > 0x39 {
            proof {
                assert(digits[at - first] == byte);
                assert(!is_digit(digits[at - first]));
            }
            return None;
        }
        proof {
            assert(all_digits(next)) by {
                assert forall|i: int| 0 <= i < next.len() implies is_digit(#[trigger] next[i]) by {
                    if i < seen.len() {
                        assert(next[i] == seen[i]);
                    }
                }
            }
        }
        let digit: u64 = (byte - 0x30) as u64;
        let grown = match value.checked_mul(10) {
            Some(tenfold) => tenfold.checked_add(digit),
            None => None,
        };
        match grown {
            Some(sum) => {
                value = sum;
            },
            None => {
                proof {
                    assert(decimal_value(next) > u64::MAX);
                    if all_digits(digits) {
                        lemma_decimal_value_grows(digits, at - first + 1);
                    }
                }
                return None;
            },
        }
        at = at + 1;
    }
    proof {
        assert(digits.take(at - first) =~= digits);
    }
    Some(value)
}

} // verus!
