use vstd::prelude::*;

use crate::fp_engine::{
    low_latency_of,
    standard_of,
    convert_to_low_latency,
    convert_to_standard,
};

verus! {

/// Direction of a conversion.
#[derive(PartialEq, Eq, Structural, Debug, Clone, Copy)]
pub enum Mode {
    /// Standard to low-latency.
    ToInternal,
    /// Low-latency to standard.
    ToIEEE754,
}

/// How the text of an input reads.
#[derive(PartialEq, Eq, Structural, Debug, Clone, Copy)]
pub enum InputFormat {
    Binary,
    Hexadecimal,
    Unrecognized,
}

/// Why an input gives no number.
#[derive(PartialEq, Eq, Structural, Debug, Clone, Copy)]
pub enum ParseError {
    /// No digits to read.
    Empty,
    /// A character that is not a digit of the radix.
    InvalidDigit,
    /// The number does not fit in 32 bits.
    PosOverflow,
    /// The text is neither binary nor hexadecimal.
    UnrecognizedFormat,
}

/// The input with every space removed.
pub open spec fn without_spaces(s: Seq<char>) -> Seq<char>
    decreases s.len(),
{
    if s.len() == 0 {
        s
    } else if s.last() == ' ' {
        without_spaces(s.drop_last())
    } else {
        without_spaces(s.drop_last()).push(s.last())
    }
}

/// The value of a hexadecimal digit, in either case.
pub open spec fn hex_value(c: char) -> Option<u32> {
    if '0' <= c && c <= '9' {
        Some((c as u32 - '0' as u32) as u32)
    } else if 'a' <= c && c <= 'f' {
        Some((c as u32 - 'a' as u32 + 10) as u32)
    } else if 'A' <= c && c <= 'F' {
        Some((c as u32 - 'A' as u32 + 10) as u32)
    } else {
        None
    }
}

/// The value of a digit of the given radix (2 or 16).
pub open spec fn digit_value(c: char, radix: u32) -> Option<u32> {
    match hex_value(c) {
        Some(d) => if d < radix {
            Some(d)
        } else {
            None
        },
        None => None,
    }
}

/// Whether the text begins with `0x`, in either case.
pub open spec fn starts_with_0x(s: Seq<char>) -> bool {
    s.len() >= 2 && s[0] == '0' && (s[1] == 'x' || s[1] == 'X')
}

/// How a text without spaces reads: binary when every character is `0` or
/// `1`, hexadecimal when it starts with `0x` or every character is a hex
/// digit, otherwise neither.
pub open spec fn format_of(s: Seq<char>) -> InputFormat {
    if forall|i: int| 0 <= i < s.len() ==> #[trigger] s[i] == '0' || s[i] == '1' {
        InputFormat::Binary
    } else if starts_with_0x(s) || forall|i: int|
        0 <= i < s.len() ==> #[trigger] hex_value(s[i]) is Some {
        InputFormat::Hexadecimal
    } else {
        InputFormat::Unrecognized
    }
}

/// The text with every leading `0x` removed.
pub open spec fn strip_0x(s: Seq<char>) -> Seq<char>
    decreases s.len(),
{
    if starts_with_0x(s) {
        strip_0x(s.subrange(2, s.len() as int))
    } else {
        s
    }
}

/// Reads digits left to right onto `acc`: the first character that is not a
/// digit is an `InvalidDigit`, and a value past `u32::MAX` a `PosOverflow`.
pub open spec fn digits_value(s: Seq<char>, radix: u32, acc: nat) -> Result<u32, ParseError>
    decreases s.len(),
{
    if s.len() == 0 {
        Ok(acc as u32)
    } else {
        match digit_value(s[0], radix) {
            None => Err(ParseError::InvalidDigit),
            Some(d) => {
                let next = acc * radix + d;
                if next > u32::MAX {
                    Err(ParseError::PosOverflow)
                } else {
                    digits_value(s.drop_first(), radix, next as nat)
                }
            },
        }
    }
}

/// An unsigned numeral of the given radix: an optional `+`, then digits.
pub open spec fn numeral_value(s: Seq<char>, radix: u32) -> Result<u32, ParseError> {
    if s.len() == 0 {
        Err(ParseError::Empty)
    } else if s.len() == 1 && (s[0] == '+' || s[0] == '-') {
        Err(ParseError::InvalidDigit)
    } else if s[0] == '+' {
        digits_value(s.drop_first(), radix, 0)
    } else {
        digits_value(s, radix, 0)
    }
}

/// The number that an input stands for, spaces aside: binary digits, or
/// hexadecimal ones after any leading `0x`.
pub open spec fn input_value(input: Seq<char>) -> Result<u32, ParseError> {
    let s = without_spaces(input);
    match format_of(s) {
        InputFormat::Binary => numeral_value(s, 2),
        InputFormat::Hexadecimal => numeral_value(strip_0x(s), 16),
        InputFormat::Unrecognized => Err(ParseError::UnrecognizedFormat),
    }
}

/// The result of converting `n` in the given direction.
pub open spec fn converted(mode: Mode, n: u32) -> u32 {
    match mode {
        Mode::ToInternal => low_latency_of(n),
        Mode::ToIEEE754 => standard_of(n),
    }
}

/// The message shown for an error.
pub open spec fn error_text(e: ParseError) -> Seq<char> {
    match e {
        ParseError::Empty => "Nieprawidłowe wejście: cannot parse integer from empty string"@,
        ParseError::InvalidDigit => "Nieprawidłowe wejście: invalid digit found in string"@,
        ParseError::PosOverflow => "Nieprawidłowe wejście: number too large to fit in target type"@,
        ParseError::UnrecognizedFormat => "Nieprawidłowe wejście: Nieprawidłowy format wejścia"@,
    }
}

/// Relies on str::chars: the characters of the text, in order.
#[verifier::external_body]
fn chars_of(s: &str) -> (r: Vec<char>)
    ensures
        r@ == s@,
{
    s.chars().collect()
}

fn remove_spaces(s: &Vec<char>) -> (r: Vec<char>)
    ensures
        r@ == without_spaces(s@),
{
    let mut out: Vec<char> = Vec::new();
    let mut i: usize = 0;
    while i < s.len()
        invariant
            i <= s@.len(),
            out@ == without_spaces(s@.subrange(0, i as int)),
        decreases s@.len() - i,
    {
        let c = s[i];
        assert(s@.subrange(0, i as int + 1).drop_last() == s@.subrange(0, i as int));
        if c != ' ' {
            out.push(c);
        }
        i = i + 1;
    }
    assert(s@.subrange(0, s@.len() as int) == s@);
    out
}

fn hex_digit(c: char) -> (r: Option<u32>)
    ensures
        r == hex_value(c),
{
    if '0' <= c && c <= '9' {
        Some(c as u32 - '0' as u32)
    } else if 'a' <= c && c <= 'f' {
        Some(c as u32 - 'a' as u32 + 10)
    } else if 'A' <= c && c <= 'F' {
        Some(c as u32 - 'A' as u32 + 10)
    } else {
        None
    }
}

fn format_of_chars(s: &Vec<char>) -> (r: InputFormat)
    ensures
        r == format_of(s@),
{
    let mut binary = true;
    let mut hex = true;
    let mut i: usize = 0;
    while i < s.len()
        invariant
            i <= s@.len(),
            binary == forall|j: int| 0 <= j < i ==> #[trigger] s@[j] == '0' || s@[j] == '1',
            hex == forall|j: int| 0 <= j < i ==> #[trigger] hex_value(s@[j]) is Some,
        decreases s@.len() - i,
    {
        let c = s[i];
        if c != '0' && c != '1' {
            binary = false;
        }
        if hex_digit(c).is_none() {
            hex = false;
        }
        i = i + 1;
    }
    if binary {
        InputFormat::Binary
    } else if (s.len() >= 2 && s[0] == '0' && (s[1] == 'x' || s[1] == 'X')) || hex {
        InputFormat::Hexadecimal
    } else {
        InputFormat::Unrecognized
    }
}

/// Index of the first character after every leading `0x`.
fn skip_0x(s: &Vec<char>) -> (r: usize)
    ensures
        r <= s@.len(),
        strip_0x(s@) == s@.subrange(r as int, s@.len() as int),
{
    let mut i: usize = 0;
    assert(s@.subrange(0, s@.len() as int) == s@);
    while s.len() - i >= 2 && s[i] == '0' && (s[i + 1] == 'x' || s[i + 1] == 'X')
        invariant
            i <= s@.len(),
            strip_0x(s@) == strip_0x(s@.subrange(i as int, s@.len() as int)),
        decreases s@.len() - i,
    {
        let ghost rest = s@.subrange(i as int, s@.len() as int);
        assert(rest.subrange(2, rest.len() as int) == s@.subrange(i + 2, s@.len() as int));
        i = i + 2;
    }
    i
}

/// Reads `s[start..]` as a numeral of the given radix.
fn parse_numeral_from(s: &Vec<char>, start: usize, radix: u32) -> (r: Result<u32, ParseError>)
    requires
        start <= s@.len(),
        radix == 2 || radix == 16,
    ensures
        r == numeral_value(s@.subrange(start as int, s@.len() as int), radix),
{
    let ghost t = s@.subrange(start as int, s@.len() as int);
    let n = s.len();
    if start == n {
        return Err(ParseError::Empty);
    }
    if start + 1 == n && (s[start] == '+' || s[start] == '-') {
        return Err(ParseError::InvalidDigit);
    }
    let mut i: usize = if s[start] == '+' {
        start + 1
    } else {
        start
    };
    let mut acc: u32 = 0;
    proof {
        assert(t[0] == s@[start as int]);
        if s@[start as int] == '+' {
            assert(t.drop_first() == s@.subrange(i as int, n as int));
        } else {
            assert(t == s@.subrange(i as int, n as int));
        }
    }
    while i < n
        invariant
            start <= i <= n,
            n == s@.len(),
            radix == 2 || radix == 16,
            t == s@.subrange(start as int, n as int),
            numeral_value(t, radix) == digits_value(
                s@.subrange(i as int, n as int),
                radix,
                acc as nat,
            ),
        decreases n - i,
    {
        let ghost rest = s@.subrange(i as int, n as int);
        assert(rest.drop_first() == s@.subrange(i + 1, n as int));
        assert(rest.len() > 0 && rest[0] == s@[i as int]);
        let c = s[i];
        let d = match hex_digit(c) {
            Some(d) => d,
            None => {
                return Err(ParseError::InvalidDigit);
            },
        };
        if d >= radix {
            return Err(ParseError::InvalidDigit);
        }
        let next: u64 = acc as u64 * radix as u64 + d as u64;
        assert(acc as u64 * radix as u64 <= 0xffff_ffffu64 * 16) by (nonlinear_arith)
            requires
                acc <= 0xffff_ffffu32,
                radix <= 16,
        ;
        if next > 0xffff_ffffu64 {
            return Err(ParseError::PosOverflow);
        }
        acc = next as u32;
        i = i + 1;
    }
    Ok(acc)
}

/// Reads an input as a number: spaces are ignored, binary when every
/// character is `0` or `1`, hexadecimal (after any leading `0x`) otherwise.
pub fn parse_numeral(input: &str) -> (r: Result<u32, ParseError>)
    ensures
        r == input_value(input@),
{
    let s = remove_spaces(&chars_of(input));
    match format_of_chars(&s) {
        InputFormat::Binary => {
            assert(s@.subrange(0, s@.len() as int) == s@);
            parse_numeral_from(&s, 0, 2)
        },
        InputFormat::Hexadecimal => {
            let start = skip_0x(&s);
            parse_numeral_from(&s, start, 16)
        },
        InputFormat::Unrecognized => Err(ParseError::UnrecognizedFormat),
    }
}

/// How an input reads once its spaces are removed.
pub fn input_format(input: &str) -> (r: InputFormat)
    ensures
        r == format_of(without_spaces(input@)),
{
    format_of_chars(&remove_spaces(&chars_of(input)))
}

impl ParseError {
    /// The message shown for this error.
    pub fn message(&self) -> (r: String)
        ensures
            r@ == error_text(*self),
    {
        match self {
            ParseError::Empty => "Nieprawidłowe wejście: cannot parse integer from empty string".to_owned(),
            ParseError::InvalidDigit => "Nieprawidłowe wejście: invalid digit found in string".to_owned(),
            ParseError::PosOverflow => "Nieprawidłowe wejście: number too large to fit in target type".to_owned(),
            ParseError::UnrecognizedFormat => "Nieprawidłowe wejście: Nieprawidłowy format wejścia".to_owned(),
        }
    }
}

/// Reads an input and converts it in the given direction: on success the
/// result holds the converted bits and the error is cleared; otherwise the
/// result is cleared and the error holds the message.
pub fn parse_input(
    input: &str,
    mode: &Mode,
    result: &mut Option<u32>,
    error: &mut Option<String>,
)
    ensures
        match input_value(input@) {
            Ok(n) => *final(result) == Some(converted(*mode, n)) && *final(error) is None,
            Err(e) => *final(result) is None && match *final(error) {
                Some(m) => m@ == error_text(e),
                None => false,
            },
        },
{
    *error = None;
    match parse_numeral(input) {
        Ok(n) => {
            let out = match mode {
                Mode::ToInternal => convert_to_low_latency(n),
                Mode::ToIEEE754 => convert_to_standard(n),
            };
            *result = Some(out);
        },
        Err(e) => {
            *error = Some(e.message());
            *result = None;
        },
    }
}

} // verus!
