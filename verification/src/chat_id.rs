//! The identifier of a chat as the configuration writes it: a whole
//! number in decimal, with or without a sign.

use vstd::prelude::*;
use vstd::string::*;

verus! {

/// Whether `c` is one of the digits `0` to `9`.
pub open spec fn is_digit(c: char) -> bool {
    0x30 <= c as u32 <= 0x39
}

/// The number that the digit `c` stands for.
pub open spec fn digit_of(c: char) -> int {
    c as u32 - 0x30
}

/// Whether `text` holds digits only.
pub open spec fn all_digits(text: Seq<char>) -> bool {
    forall|i: int| 0 <= i < text.len() ==> is_digit(#[trigger] text[i])
}

/// The number that a run of digits writes in decimal; 0 for none.
pub open spec fn digits_value(digits: Seq<char>) -> int
    decreases digits.len(),
{
    if digits.len() == 0 {
        0
    } else {
        digits_value(digits.drop_last()) * 10 + digit_of(digits.last())
    }
}

/// Whether `text` begins with a sign.
pub open spec fn has_sign(text: Seq<char>) -> bool {
    text.len() > 0 && (text[0] == '-' || text[0] == '+')
}

/// The digits of `text`: all of it but a leading sign.
pub open spec fn digits_part(text: Seq<char>) -> Seq<char> {
    if has_sign(text) {
        text.skip(1)
    } else {
        text
    }
}

/// The whole number that `text` writes: an optional sign, `+` or `-`,
/// followed by one digit or more and nothing else.
pub open spec fn signed_decimal(text: Seq<char>) -> Option<int> {
    let digits = digits_part(text);
    if digits.len() > 0 && all_digits(digits) {
        if text[0] == '-' {
            Some(-digits_value(digits))
        } else {
            Some(digits_value(digits))
        }
    } else {
        None
    }
}

/// The chat identifier that `text` writes: the whole number it writes,
/// where it writes one that fits into 64 bits.
pub open spec fn chat_id_of(text: Seq<char>) -> Option<i64> {
    match signed_decimal(text) {
        Some(value) => if i64::MIN <= value <= i64::MAX {
            Some(value as i64)
        } else {
            None
        },
        None => None,
    }
}

/// The value of a run of digits is not negative.
proof fn lemma_value_not_negative(digits: Seq<char>)
    requires
        all_digits(digits),
    ensures
        digits_value(digits) >= 0,
    decreases digits.len(),
{
    if digits.len() > 0 {
        assert(is_digit(digits.last()));
        lemma_value_not_negative(digits.drop_last());
    }
}

/// Reads a chat identifier. Returns `None` for a text that is not a
/// whole number in decimal or whose number does not fit into 64 bits.
pub fn parse_chat_id(text: &str) -> (id: Option<i64>)
    ensures
        id == chat_id_of(text@),
{
    let count: usize = text.unicode_len();
    if count == 0 {
        return None;
    }
    let first: char = text.get_char(0);
    let negative: bool = first == '-';
    let start: usize = if first == '-' || first == '+' {
        1
    } else {
        0
    };
    let ghost digits = digits_part(text@);
    if start == count {
        return None;
    }
    // The number is gathered as a negative one, which has room for the
    // lowest identifier as well.
    let mut gathered: i64 = 0;
    let mut too_large: bool = false;
    let mut i: usize = start;
    while i < count
        invariant
            start <= i <= count,
            count == text@.len(),
            digits == text@.skip(start as int),
            digits == digits_part(text@),
            all_digits(digits.take(i - start)),
            !too_large ==> gathered == -digits_value(digits.take(i - start)),
            too_large ==> digits_value(digits.take(i - start)) > -(i64::MIN as int),
        decreases count - i,
    {
        let c: char = text.get_char(i);
        let code: u32 = c as u32;
        let ghost sofar = digits.take(i - start);
        let ghost longer = digits.take(i - start + 1);
        proof {
            assert(digits[i - start] == c);
            assert(longer.drop_last() =~= sofar);
            assert(longer.last() == c);
        }
        if code < 0x30 || code > 0x39 {
            proof {
                assert(!is_digit(digits[i - start]));
            }
            return None;
        }
        proof {
            lemma_value_not_negative(sofar);
            assert forall|k: int| 0 <= k < longer.len() implies is_digit(#[trigger] longer[k]) by {
                if k < sofar.len() {
                    assert(longer[k] == sofar[k]);
                }
            }
        }
        let digit: i64 = (code - 0x30) as i64;
        if !too_large {
            if gathered < -922337203685477580 {
                too_large = true;
            } else {
                let tenfold: i64 = gathered * 10;
                if tenfold < i64::MIN + digit {
                    too_large = true;
                } else {
                    gathered = tenfold - digit;
                }
            }
        }
        i += 1;
    }
    proof {
        assert(digits.take(count - start) =~= digits);
    }
    if too_large {
        None
    } else if negative {
        Some(gathered)
    } else if gathered == i64::MIN {
        None
    } else {
        Some(-gathered)
    }
}

} // verus!
