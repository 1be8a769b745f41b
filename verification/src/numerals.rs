//! Numbers as text: decimal numerals, hexadecimal renderings, and the reading of decimal
//! numbers.

use crate::text::{push_char, to_chars};
use vstd::prelude::*;

verus! {

/// The decimal digit of a number below ten.
pub open spec fn digit_char(d: int) -> char {
    ((48 + d) as u8) as char
}

/// The decimal numeral of a number, without leading zeros.
pub open spec fn decimal(n: nat) -> Seq<char>
    decreases n,
{
    if n < 10 {
        seq![digit_char(n as int)]
    } else {
        decimal(n / 10).push(digit_char((n % 10) as int))
    }
}

/// Appends the decimal numeral of `n` to `out`.
pub fn push_decimal(out: &mut String, n: u64)
    ensures
        final(out)@ == old(out)@ + decimal(n as nat),
    decreases n,
{
    if n >= 10 {
        push_decimal(out, n / 10);
    }
    let d: u8 = (n % 10) as u8;
    push_char(out, (48 + d) as char);
    assert(final(out)@ =~= old(out)@ + decimal(n as nat));
}

/// The lower-case hexadecimal digit of a number below sixteen.
pub open spec fn hex_digit(d: int) -> char {
    if d < 10 {
        ((48 + d) as u8) as char
    } else {
        ((87 + d) as u8) as char
    }
}

/// The character at index `k` of the hexadecimal rendering of `bytes`: the high half of a
/// byte at the even places, the low half at the odd ones.
pub open spec fn hex_char_at(bytes: Seq<u8>, k: int) -> char {
    if k % 2 == 0 {
        hex_digit(bytes[k / 2] as int / 16)
    } else {
        hex_digit(bytes[k / 2] as int % 16)
    }
}

/// The bytes in lower-case hexadecimal, two digits each.
pub open spec fn hex_lower(bytes: Seq<u8>) -> Seq<char> {
    Seq::new(2 * bytes.len(), |k: int| hex_char_at(bytes, k))
}

/// Decides `hex_digit`.
pub fn hex_digit_of(d: u8) -> (c: char)
    requires
        d < 16,
    ensures
        c == hex_digit(d as int),
{
    if d < 10 {
        (48 + d) as char
    } else {
        (87 + d) as char
    }
}

/// Appends the lower-case hexadecimal rendering of `bytes` to `out`.
pub fn push_hex(out: &mut String, bytes: &[u8])
    ensures
        final(out)@ == old(out)@ + hex_lower(bytes@),
{
    let mut i: usize = 0;
    assert(out@ =~= old(out)@ + hex_lower(bytes@.take(0)));
    while i < bytes.len()
        invariant
            i <= bytes.len(),
            out@ == old(out)@ + hex_lower(bytes@.take(i as int)),
        decreases bytes.len() - i,
    {
        let b = bytes[i];
        let ghost before = out@;
        push_char(out, hex_digit_of(b / 16));
        push_char(out, hex_digit_of(b % 16));
        proof {
            let shorter = bytes@.take(i as int);
            let longer = bytes@.take(i + 1);
            assert forall|k: int| 0 <= k < 2 * longer.len() implies hex_lower(longer)[k] == (
            hex_lower(shorter).push(hex_digit(b as int / 16)).push(hex_digit(b as int % 16)))[k] by {
                if k < 2 * i {
                    assert(longer[k / 2] == shorter[k / 2]);
                } else {
                    assert(longer[k / 2] == b);
                }
            }
            assert(hex_lower(longer) =~= hex_lower(shorter).push(hex_digit(b as int / 16)).push(
                hex_digit(b as int % 16),
            ));
            assert(out@ =~= old(out)@ + hex_lower(longer));
        }
        i += 1;
    }
    assert(bytes@.take(bytes.len() as int) == bytes@);
}

/// Why a text is no number.
#[derive(Clone, Copy, Debug, PartialEq, Eq, Structural)]
pub enum ParseFailure {
    /// The text is empty.
    Empty,
    /// A character is no decimal digit, or a sign stands alone.
    InvalidDigit,
    /// The number is above the limit.
    TooLarge,
}

/// Whether a character is a decimal digit.
pub open spec fn is_digit(c: char) -> bool {
    '0' <= c <= '9'
}

/// The value of a decimal digit.
pub open spec fn digit_value(c: char) -> nat {
    (c as u32 - 48) as nat
}

/// The number that `so_far` and then the digits make, read from the left: the first
/// character that is no digit, or the first digit that takes the number above `max`, ends
/// the reading.
pub open spec fn read_digits(so_far: nat, digits: Seq<char>, max: nat) -> Result<nat, ParseFailure>
    decreases digits.len(),
{
    if digits.len() == 0 {
        Ok(so_far)
    } else if !is_digit(digits[0]) {
        Err(ParseFailure::InvalidDigit)
    } else if so_far * 10 + digit_value(digits[0]) > max {
        Err(ParseFailure::TooLarge)
    } else {
        read_digits(so_far * 10 + digit_value(digits[0]), digits.drop_first(), max)
    }
}

/// The number at most `max` that a text is: decimal digits, behind a `+` or behind nothing.
pub open spec fn parse_number(text: Seq<char>, max: nat) -> Result<nat, ParseFailure> {
    if text.len() == 0 {
        Err(ParseFailure::Empty)
    } else {
        let digits = if text[0] == '+' {
            text.drop_first()
        } else {
            text
        };
        if digits.len() == 0 {
            Err(ParseFailure::InvalidDigit)
        } else {
            read_digits(0, digits, max)
        }
    }
}

/// Decides `parse_number`.
pub fn parse_unsigned(text: &str, max: u64) -> (parsed: Result<u64, ParseFailure>)
    ensures
        match parsed {
            Ok(n) => parse_number(text@, max as nat) == Ok::<nat, ParseFailure>(n as nat),
            Err(failure) => parse_number(text@, max as nat) == Err::<nat, ParseFailure>(failure),
        },
{
    let chars = to_chars(text);
    if chars.len() == 0 {
        return Err(ParseFailure::Empty);
    }
    let first: usize = if chars[0] == '+' {
        1
    } else {
        0
    };
    if first == chars.len() {
        return Err(ParseFailure::InvalidDigit);
    }
    let ghost digits = if first == 1 {
        chars@.drop_first()
    } else {
        chars@
    };
    assert(digits == chars@.skip(first as int));
    let mut so_far: u64 = 0;
    let mut i: usize = first;
    while i < chars.len()
        invariant
            first <= i <= chars.len(),
            so_far <= max,
            parse_number(text@, max as nat) == read_digits(
                0,
                chars@.skip(first as int),
                max as nat,
            ),
            read_digits(so_far as nat, chars@.skip(i as int), max as nat) == read_digits(
                0,
                chars@.skip(first as int),
                max as nat,
            ),
        decreases chars.len() - i,
    {
        let c = chars[i];
        let ghost rest = chars@.skip(i as int);
        assert(rest[0] == c);
        assert(rest.drop_first() == chars@.skip(i + 1));
        if !('0' <= c && c <= '9') {
            return Err(ParseFailure::InvalidDigit);
        }
        let d: u64 = (c as u32 - 48) as u64;
        let next: u128 = so_far as u128 * 10 + d as u128;
        if next > max as u128 {
            return Err(ParseFailure::TooLarge);
        }
        so_far = next as u64;
        i += 1;
    }
    Ok(so_far)
}

/// What the failure of a parse is called.
pub open spec fn failure_text(failure: ParseFailure) -> Seq<char> {
    match failure {
        ParseFailure::Empty => "cannot parse integer from empty string"@,
        ParseFailure::InvalidDigit => "invalid digit found in string"@,
        ParseFailure::TooLarge => "number too large to fit in target type"@,
    }
}

impl ParseFailure {
    /// What the failure is called.
    pub fn description(&self) -> (text: String)
        ensures
            text@ == failure_text(*self),
    {
        match self {
            ParseFailure::Empty => "cannot parse integer from empty string".to_owned(),
            ParseFailure::InvalidDigit => "invalid digit found in string".to_owned(),
            ParseFailure::TooLarge => "number too large to fit in target type".to_owned(),
        }
    }
}

} // verus!
