//! Reading the sample width that a user asks for.

use crate::format::is_supported_bitrate;
use vstd::prelude::*;
use vstd::string::is_ascii_spec_bytes;

verus! {

/// Whether `c` is one of the ten ASCII digits.
pub open spec fn is_decimal_digit(c: char) -> bool {
    '0' <= c <= '9'
}

/// The number a digit stands for.
pub open spec fn digit_value(c: char) -> nat {
    if is_decimal_digit(c) {
        (c as int - '0' as int) as nat
    } else {
        0
    }
}

/// The number that a run of digits spells in base ten, most significant digit first.
pub open spec fn decimal_value(digits: Seq<char>) -> nat
    decreases digits.len(),
{
    if digits.len() == 0 {
        0
    } else {
        10 * decimal_value(digits.drop_last()) + digit_value(digits.last())
    }
}

/// `text` without the plus sign that may lead it.
pub open spec fn unsigned_part(text: Seq<char>) -> Seq<char> {
    if text.len() > 0 && text[0] == '+' {
        text.drop_first()
    } else {
        text
    }
}

/// Whether `text` is an optional plus sign followed by one or more digits and nothing else.
pub open spec fn is_decimal_number(text: Seq<char>) -> bool {
    let digits = unsigned_part(text);
    &&& digits.len() > 0
    &&& forall|i: int| 0 <= i < digits.len() ==> is_decimal_digit(#[trigger] digits[i])
}

/// The 16-bit number that `text` spells in base ten, where it spells one: an optional plus
/// sign, then digits only, with a value of at most 65535. Leading zeros are allowed; spaces,
/// a minus sign and an empty text are not.
pub open spec fn parse_u16(text: Seq<char>) -> Option<u16> {
    if is_decimal_number(text) && decimal_value(unsigned_part(text)) <= u16::MAX {
        Some(decimal_value(unsigned_part(text)) as u16)
    } else {
        None
    }
}

/// What the user is told when `text` is no number.
pub open spec fn invalid_number_message(text: Seq<char>) -> Seq<char> {
    "`"@ + text + "` isn't a valid number"@
}

/// What the user is told when the number is no supported sample width.
pub open spec fn unsupported_bitrate_message() -> Seq<char> {
    "Bitrate not in supported bitrates: [8, 16]"@
}

/// The digits read so far never spell more than the whole run does.
proof fn lemma_prefix_value_bounded(digits: Seq<char>, k: int)
    requires
        0 <= k <= digits.len(),
    ensures
        decimal_value(digits.take(k)) <= decimal_value(digits),
    decreases digits.len(),
{
    if k == digits.len() {
        assert(digits.take(k) =~= digits);
    } else {
        assert(digits.drop_last().take(k) =~= digits.take(k));
        lemma_prefix_value_bounded(digits.drop_last(), k);
    }
}

/// Reading one more digit multiplies what was read by ten and adds the digit.
proof fn lemma_value_step(digits: Seq<char>, k: int)
    requires
        0 <= k < digits.len(),
    ensures
        decimal_value(digits.take(k + 1)) == 10 * decimal_value(digits.take(k)) + digit_value(
            digits[k],
        ),
{
    assert(digits.take(k + 1).drop_last() =~= digits.take(k));
}

/// A text with a character outside ASCII spells no number.
proof fn lemma_non_ascii_is_no_number(text: Seq<char>)
    requires
        !vstd::utf8::is_ascii_chars(text),
    ensures
        parse_u16(text) is None,
{
    let i = choose|i: int| 0 <= i < text.len() && !('\0' <= #[trigger] text[i] <= '\u{7f}');
    let digits = unsigned_part(text);
    if text[0] == '+' {
        assert(!is_decimal_digit(digits[i - 1]));
    } else {
        assert(!is_decimal_digit(digits[i]));
    }
}

/// Reads a 16-bit number written in base ten.
pub fn parse_decimal_u16(text: &str) -> (value: Option<u16>)
    ensures
        value == parse_u16(text@),
{
    if !text.is_ascii() {
        proof {
            lemma_non_ascii_is_no_number(text@);
        }
        return None;
    }
    let bytes = text.as_bytes();
    proof {
        is_ascii_spec_bytes(text);
    }
    let n: usize = bytes.len();
    let start: usize = if n > 0 && bytes[0] == '+' as u8 {
        1
    } else {
        0
    };
    let ghost digits = unsigned_part(text@);
    if start == n {
        return None;
    }
    let mut value: u32 = 0;
    let mut i: usize = start;
    while i < n
        invariant
            start <= i <= n,
            n == text@.len(),
            n == bytes@.len(),
            vstd::utf8::is_ascii_chars(text@),
            forall|k: int| 0 <= k < n ==> #[trigger] bytes@[k] == text@[k] as u8,
            digits == unsigned_part(text@),
            digits == text@.skip(start as int),
            forall|k: int| 0 <= k < i - start ==> is_decimal_digit(#[trigger] digits[k]),
            value == decimal_value(digits.take(i - start)),
            value <= u16::MAX,
        decreases n - i,
    {
        let byte: u8 = bytes[i];
        assert(byte == digits[i - start] as u8);
        if byte < '0' as u8 || byte > '9' as u8 {
            assert(!is_decimal_digit(digits[i - start]));
            return None;
        }
        proof {
            lemma_value_step(digits, i - start);
        }
        value = value * 10 + (byte - '0' as u8) as u32;
        if value > 65535 {
            proof {
                lemma_prefix_value_bounded(digits, i - start + 1);
            }
            return None;
        }
        i += 1;
    }
    assert(digits.take(i - start) =~= digits);
    Some(value as u16)
}

/// Reads a sample width from what the user typed: the number if it is 8 or 16, else the
/// message for the user.
pub fn check_bitrate(s: &str) -> (result: Result<u16, String>)
    ensures
        match parse_u16(s@) {
            Some(bitrate) => if is_supported_bitrate(bitrate) {
                result == Ok::<u16, String>(bitrate)
            } else {
                result is Err && result->Err_0@ == unsupported_bitrate_message()
            },
            None => result is Err && result->Err_0@ == invalid_number_message(s@),
        },
{
    match parse_decimal_u16(s) {
        Some(bitrate) => {
            if bitrate == 8 || bitrate == 16 {
                Ok(bitrate)
            } else {
                Err(String::from_str("Bitrate not in supported bitrates: [8, 16]"))
            }
        },
        None => {
            let mut message = String::from_str("`");
            message.append(s);
            message.append("` isn't a valid number");
            Err(message)
        },
    }
}

} // verus!
