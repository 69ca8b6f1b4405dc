//! Reading the sign of a number from its decimal text.
//!
//! A playback rate matters only by whether it is above zero. That is decided
//! here on the text of the number, by the grammar
//!
//! ```text
//! Number   ::= Sign? ( "inf" | "infinity" | "nan" | Mantissa Exponent? )
//! Mantissa ::= Digit+ | Digit+ "." Digit* | Digit* "." Digit+
//! Exponent ::= ( "e" | "E" ) Sign? Digit+
//! ```
//!
//! where the three words are read without regard to letter case. The value is
//! taken exactly: a mantissa with a non-zero digit is not zero, however
//! small the exponent makes it.

use vstd::prelude::*;

use crate::text::{ascii_lowered, chars_equal, chars_of, lower_ascii_chars};

verus! {

pub open spec fn is_digit(c: char) -> bool {
    '0' <= c <= '9'
}

pub open spec fn is_sign(c: char) -> bool {
    c == '+' || c == '-'
}

/// The index just behind the run of digits that starts at `from`.
pub open spec fn digits_end(s: Seq<char>, from: int) -> int
    decreases s.len() - from,
{
    if 0 <= from < s.len() && is_digit(s[from]) {
        digits_end(s, from + 1)
    } else {
        from
    }
}

/// Whether one of the first `to` characters of `s` is a digit other than zero.
pub open spec fn has_nonzero_digit(s: Seq<char>, to: int) -> bool {
    exists|i: int| 0 <= i < to && i < s.len() && '1' <= #[trigger] s[i] <= '9'
}

/// Whether the text starts with a minus sign.
pub open spec fn is_negative(text: Seq<char>) -> bool {
    text.len() > 0 && text[0] == '-'
}

/// The text without its sign, if it has one.
pub open spec fn unsigned_part(text: Seq<char>) -> Seq<char> {
    if text.len() > 0 && is_sign(text[0]) {
        text.skip(1)
    } else {
        text
    }
}

/// The index just behind the mantissa with which `body` starts.
pub open spec fn mantissa_end(body: Seq<char>) -> int {
    let whole_end = digits_end(body, 0);
    if whole_end < body.len() && body[whole_end] == '.' {
        digits_end(body, whole_end + 1)
    } else {
        whole_end
    }
}

/// The number of digits in the mantissa with which `body` starts.
pub open spec fn mantissa_digits(body: Seq<char>) -> int {
    let whole_end = digits_end(body, 0);
    if whole_end < body.len() && body[whole_end] == '.' {
        mantissa_end(body) - 1
    } else {
        whole_end
    }
}

/// Whether `body` from `from` on is empty or an exponent.
pub open spec fn is_exponent_or_empty(body: Seq<char>, from: int) -> bool {
    if from < body.len() && (body[from] == 'e' || body[from] == 'E') {
        let digits_from = if from + 1 < body.len() && is_sign(body[from + 1]) {
            from + 2
        } else {
            from + 1
        };
        digits_from < digits_end(body, digits_from) == body.len()
    } else {
        from == body.len()
    }
}

/// Whether `body` is a mantissa with an optional exponent.
pub open spec fn is_decimal(body: Seq<char>) -> bool {
    mantissa_digits(body) > 0 && is_exponent_or_empty(body, mantissa_end(body))
}

/// Reads `text` as a number: `None` where it is none, else whether the
/// number is above zero. Not-a-number is not above zero.
pub open spec fn above_zero(text: Seq<char>) -> Option<bool> {
    let body = unsigned_part(text);
    let word = ascii_lowered(body);
    if word == "inf"@ || word == "infinity"@ {
        Some(!is_negative(text))
    } else if word == "nan"@ {
        Some(false)
    } else if is_decimal(body) {
        Some(!is_negative(text) && has_nonzero_digit(body, mantissa_end(body)))
    } else {
        None
    }
}

fn char_is_digit(c: char) -> (b: bool)
    ensures
        b == is_digit(c),
{
    '0' <= c && c <= '9'
}

fn char_is_sign(c: char) -> (b: bool)
    ensures
        b == is_sign(c),
{
    c == '+' || c == '-'
}

fn scan_digits(chars: &Vec<char>, from: usize) -> (end: usize)
    requires
        from <= chars.len(),
    ensures
        end == digits_end(chars@, from as int),
        from <= end <= chars.len(),
{
    let mut end: usize = from;
    while end < chars.len() && char_is_digit(chars[end])
        invariant
            from <= end <= chars.len(),
            digits_end(chars@, from as int) == digits_end(chars@, end as int),
        decreases chars.len() - end,
    {
        end += 1;
    }
    end
}

fn any_nonzero_digit(chars: &Vec<char>, to: usize) -> (found: bool)
    requires
        to <= chars.len(),
    ensures
        found == has_nonzero_digit(chars@, to as int),
{
    let mut i: usize = 0;
    while i < to
        invariant
            i <= to <= chars.len(),
            forall|k: int| 0 <= k < i ==> !('1' <= #[trigger] chars@[k] <= '9'),
        decreases to - i,
    {
        if '1' <= chars[i] && chars[i] <= '9' {
            return true;
        }
        i += 1;
    }
    false
}

fn decimal_mantissa_end(body: &Vec<char>) -> (out: Option<usize>)
    ensures
        match out {
            Some(end) => is_decimal(body@) && end == mantissa_end(body@) && end <= body.len(),
            None => !is_decimal(body@),
        },
{
    let n = body.len();
    let whole_end = scan_digits(body, 0);
    let (end, digits) = if whole_end < n && body[whole_end] == '.' {
        let fraction_end = scan_digits(body, whole_end + 1);
        (fraction_end, fraction_end - 1)
    } else {
        (whole_end, whole_end)
    };
    if digits == 0 {
        return None;
    }
    if end < n && (body[end] == 'e' || body[end] == 'E') {
        let digits_from: usize = if end + 1 < n && char_is_sign(body[end + 1]) {
            end + 2
        } else {
            end + 1
        };
        let exponent_end = scan_digits(body, digits_from);
        if digits_from < exponent_end && exponent_end == n {
            Some(end)
        } else {
            None
        }
    } else if end == n {
        Some(end)
    } else {
        None
    }
}

/// Reads `text` as a number and tells whether it is above zero.
pub fn is_above_zero(text: &str) -> (out: Option<bool>)
    ensures
        out == above_zero(text@),
{
    let chars = chars_of(text);
    let negative = chars.len() > 0 && chars[0] == '-';
    let mut body: Vec<char> = Vec::new();
    let skipped: usize = if chars.len() > 0 && char_is_sign(chars[0]) {
        1
    } else {
        0
    };
    let mut i: usize = skipped;
    while i < chars.len()
        invariant
            skipped <= i <= chars.len(),
            body@ == chars@.subrange(skipped as int, i as int),
        decreases chars.len() - i,
    {
        body.push(chars[i]);
        i += 1;
        proof {
            assert(body@ =~= chars@.subrange(skipped as int, i as int));
        }
    }
    proof {
        assert(body@ =~= unsigned_part(text@));
    }
    let word = lower_ascii_chars(&body);
    if chars_equal(&word, &chars_of("inf")) || chars_equal(&word, &chars_of("infinity")) {
        Some(!negative)
    } else if chars_equal(&word, &chars_of("nan")) {
        Some(false)
    } else {
        match decimal_mantissa_end(&body) {
            Some(end) => Some(!negative && any_nonzero_digit(&body, end)),
            None => None,
        }
    }
}

} // verus!
