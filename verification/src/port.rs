//! Reading a TCP port number from its decimal text.
//!
//! The accepted texts are an optional `+` followed by one or more ASCII
//! digits whose value is at most 65535. A text is read from left to right,
//! and the first character that cannot be accepted decides the diagnostic.

use crate::text::chars_of;
use vstd::prelude::*;
use vstd::string::StringExecFns;

verus! {

/// Why a text is not a port number.
#[derive(Clone, Copy, Debug, PartialEq, Eq, Structural)]
pub enum PortError {
    /// The text is empty.
    Empty,
    /// A character is not an ASCII digit, or a sign stands alone.
    InvalidDigit,
    /// The digits read so far already exceed 65535.
    TooLarge,
}

/// Whether `c` is one of the ASCII digits `0` to `9`.
pub open spec fn is_digit(c: char) -> bool {
    '0' <= c && c <= '9'
}

/// The number that a digit stands for; 0 for any other character.
pub open spec fn digit_value(c: char) -> nat {
    if is_digit(c) {
        (c as int - '0' as int) as nat
    } else {
        0
    }
}

/// Whether every character of `s` is a digit.
pub open spec fn all_digits(s: Seq<char>) -> bool {
    forall|i: int| 0 <= i < s.len() ==> is_digit(#[trigger] s[i])
}

/// The number that a run of digits denotes, most significant digit first.
pub open spec fn decimal_value(s: Seq<char>) -> nat
    decreases s.len(),
{
    if s.len() == 0 {
        0
    } else {
        10 * decimal_value(s.drop_last()) + digit_value(s.last())
    }
}

/// What a run of characters after the optional sign is read as.
///
/// It is a port when every character is a digit and the value fits. Else the
/// diagnostic is `InvalidDigit` when some character is not a digit and the
/// digits before it still fit, and `TooLarge` when the value is exceeded
/// before any such character is met.
pub open spec fn read_digits(s: Seq<char>) -> Result<u16, PortError> {
    if all_digits(s) && decimal_value(s) <= u16::MAX {
        Ok(decimal_value(s) as u16)
    } else if exists|k: int|
        0 <= k < s.len() && !is_digit(#[trigger] s[k]) && all_digits(s.take(k)) && decimal_value(
            s.take(k),
        ) <= u16::MAX {
        Err(PortError::InvalidDigit)
    } else {
        Err(PortError::TooLarge)
    }
}

/// What a whole text is read as.
pub open spec fn read_port(s: Seq<char>) -> Result<u16, PortError> {
    if s.len() == 0 {
        Err(PortError::Empty)
    } else {
        let digits = if s[0] == '+' {
            s.skip(1)
        } else {
            s
        };
        if digits.len() == 0 {
            Err(PortError::InvalidDigit)
        } else {
            read_digits(digits)
        }
    }
}

/// Appending one character multiplies the value by ten and adds the digit.
pub proof fn lemma_decimal_value_step(s: Seq<char>, i: int)
    requires
        0 <= i < s.len(),
    ensures
        decimal_value(s.take(i + 1)) == 10 * decimal_value(s.take(i)) + digit_value(s[i]),
{
    assert(s.take(i + 1).drop_last() == s.take(i));
}

/// A longer prefix never denotes a smaller number.
pub proof fn lemma_decimal_value_monotonic(s: Seq<char>, i: int, j: int)
    requires
        0 <= i <= j <= s.len(),
    ensures
        decimal_value(s.take(i)) <= decimal_value(s.take(j)),
    decreases j - i,
{
    if i < j {
        lemma_decimal_value_monotonic(s, i, j - 1);
        lemma_decimal_value_step(s, j - 1);
    }
}

/// A prefix of digits stays one when the next character is a digit.
proof fn lemma_all_digits_step(s: Seq<char>, i: int)
    requires
        0 <= i < s.len(),
        all_digits(s.take(i)),
        is_digit(s[i]),
    ensures
        all_digits(s.take(i + 1)),
{
    assert forall|m: int| 0 <= m < i + 1 implies is_digit(#[trigger] s.take(i + 1)[m]) by {
        if m < i {
            assert(s.take(i)[m] == s[m]);
        }
    }
}

/// A character that is no digit, met while the digits before it still fit,
/// makes the diagnostic `InvalidDigit`.
proof fn lemma_stops_at_invalid_digit(s: Seq<char>, k: int)
    requires
        0 <= k < s.len(),
        !is_digit(s[k]),
        all_digits(s.take(k)),
        decimal_value(s.take(k)) <= u16::MAX,
    ensures
        read_digits(s) == Err::<u16, PortError>(PortError::InvalidDigit),
{
}

/// Digits that exceed the largest port make the diagnostic `TooLarge`,
/// whatever follows them.
proof fn lemma_stops_when_too_large(s: Seq<char>, k: int)
    requires
        0 <= k <= s.len(),
        all_digits(s.take(k)),
        decimal_value(s.take(k)) > u16::MAX,
    ensures
        read_digits(s) == Err::<u16, PortError>(PortError::TooLarge),
{
    assert(s.take(s.len() as int) == s);
    lemma_decimal_value_monotonic(s, k, s.len() as int);
    assert forall|m: int|
        0 <= m < s.len() && !is_digit(#[trigger] s[m]) && all_digits(
            s.take(m),
        ) implies decimal_value(s.take(m)) > u16::MAX by {
        if m < k {
            assert(s.take(k)[m] == s[m]);
        } else {
            lemma_decimal_value_monotonic(s, k, m);
        }
    }
}

fn digit_of(c: char) -> (d: Option<u32>)
    ensures
        is_digit(c) ==> d == Some(digit_value(c) as u32),
        !is_digit(c) ==> d is None,
{
    if '0' <= c && c <= '9' {
        Some(c as u32 - '0' as u32)
    } else {
        None
    }
}

/// Reads the characters of `chars` from index `start` on as a run of digits.
fn parse_digits(chars: &Vec<char>, start: usize) -> (r: Result<u16, PortError>)
    requires
        start <= chars.len(),
    ensures
        r == read_digits(chars@.skip(start as int)),
{
    let ghost digits = chars@.skip(start as int);
    let n = chars.len();
    let mut value: u32 = 0;
    let mut i: usize = start;
    while i < n
        invariant
            n == chars.len(),
            start <= i <= n,
            digits == chars@.skip(start as int),
            all_digits(digits.take(i - start)),
            value == decimal_value(digits.take(i - start)),
            value <= u16::MAX,
        decreases n - i,
    {
        let ghost k = i - start;
        match digit_of(chars[i]) {
            None => {
                proof {
                    lemma_stops_at_invalid_digit(digits, k);
                }
                return Err(PortError::InvalidDigit);
            },
            Some(d) => {
                proof {
                    lemma_decimal_value_step(digits, k);
                    lemma_all_digits_step(digits, k);
                }
                let next: u32 = value * 10 + d;
                if next > 65535 {
                    proof {
                        lemma_stops_when_too_large(digits, k + 1);
                    }
                    return Err(PortError::TooLarge);
                }
                value = next;
                i = i + 1;
            },
        }
    }
    proof {
        assert(digits.take(digits.len() as int) == digits);
    }
    Ok(value as u16)
}

/// Reads `s` as a port number.
pub fn parse_port(s: &str) -> (r: Result<u16, PortError>)
    ensures
        r == read_port(s@),
{
    let chars = chars_of(s);
    if chars.len() == 0 {
        return Err(PortError::Empty);
    }
    let start: usize = if chars[0] == '+' {
        1
    } else {
        0
    };
    if start == chars.len() {
        return Err(PortError::InvalidDigit);
    }
    proof {
        assert(s@.skip(0) == s@);
    }
    parse_digits(&chars, start)
}

impl PortError {
    /// The diagnostic as text.
    pub open spec fn text(self) -> Seq<char> {
        match self {
            PortError::Empty => "cannot parse integer from empty string"@,
            PortError::InvalidDigit => "invalid digit found in string"@,
            PortError::TooLarge => "number too large to fit in target type"@,
        }
    }

    /// The diagnostic as text.
    pub fn message(&self) -> (msg: String)
        ensures
            msg@ == self.text(),
    {
        match self {
            PortError::Empty => String::from_str("cannot parse integer from empty string"),
            PortError::InvalidDigit => String::from_str("invalid digit found in string"),
            PortError::TooLarge => String::from_str("number too large to fit in target type"),
        }
    }
}

} // verus!
