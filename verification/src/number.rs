//! The numbers that settings are written in: decimal digits, read exactly.

use vstd::prelude::*;
use vstd::string::StrSliceExecFns;

verus! {

/// Why a text is not a number of the wanted size.
#[derive(Clone, Copy, Debug, PartialEq, Eq, Structural)]
pub enum NumberError {
    /// There is no text at all.
    Empty,
    /// A character other than a decimal digit, or a `+` with nothing behind it.
    InvalidDigit,
    /// The digits read so far already spell more than the largest value.
    Overflow,
}

impl NumberError {
    /// The sentence that describes this reason.
    pub open spec fn text(self) -> Seq<char> {
        match self {
            NumberError::Empty => "cannot parse integer from empty string"@,
            NumberError::InvalidDigit => "invalid digit found in string"@,
            NumberError::Overflow => "number too large to fit in target type"@,
        }
    }

    pub fn describe(&self) -> (s: &'static str)
        ensures
            s@ == self.text(),
    {
        match self {
            NumberError::Empty => "cannot parse integer from empty string",
            NumberError::InvalidDigit => "invalid digit found in string",
            NumberError::Overflow => "number too large to fit in target type",
        }
    }
}

pub open spec fn is_digit(c: char) -> bool {
    '0' <= c <= '9'
}

pub open spec fn digit_value(c: char) -> nat {
    (c as nat - '0' as nat) as nat
}

pub open spec fn all_digits(s: Seq<char>) -> bool {
    forall|i: int| 0 <= i < s.len() ==> is_digit(#[trigger] s[i])
}

/// The number that a run of decimal digits spells.
pub open spec fn decimal(s: Seq<char>) -> nat
    decreases s.len(),
{
    if s.len() == 0 {
        0
    } else {
        10 * decimal(s.drop_last()) + digit_value(s.last())
    }
}

/// What reading `s` from the left gives: the number it spells, or what stops
/// the reading first, be it a character that is no digit or a digit with
/// which the number read so far exceeds `max`.
pub open spec fn read_digits(s: Seq<char>, max: nat) -> Result<nat, NumberError>
    decreases s.len(),
{
    if s.len() == 0 {
        Ok(0)
    } else {
        match read_digits(s.drop_last(), max) {
            Err(e) => Err(e),
            Ok(n) => if !is_digit(s.last()) {
                Err(NumberError::InvalidDigit)
            } else if 10 * n + digit_value(s.last()) > max {
                Err(NumberError::Overflow)
            } else {
                Ok(10 * n + digit_value(s.last()))
            },
        }
    }
}

/// The part of a text that holds its digits: what follows a leading `+`, or
/// all of it.
pub open spec fn digits_of(s: Seq<char>) -> Seq<char> {
    if s.len() > 0 && s[0] == '+' {
        s.drop_first()
    } else {
        s
    }
}

/// The number that a text spells: decimal digits, at least one, after at most
/// one `+`. Nothing else is taken, neither spaces nor `-` nor `_`.
pub open spec fn number_in(s: Seq<char>, max: nat) -> Result<nat, NumberError> {
    if s.len() == 0 {
        Err(NumberError::Empty)
    } else if digits_of(s).len() == 0 {
        Err(NumberError::InvalidDigit)
    } else {
        read_digits(digits_of(s), max)
    }
}

/// Reading succeeds on exactly the runs of digits that spell a number of at
/// most `max`, and gives that number.
pub proof fn lemma_read_digits_is_decimal(s: Seq<char>, max: nat)
    ensures
        read_digits(s, max) is Ok <==> all_digits(s) && decimal(s) <= max,
        read_digits(s, max) matches Ok(n) ==> n == decimal(s),
    decreases s.len(),
{
    if s.len() > 0 {
        let front = s.drop_last();
        lemma_read_digits_is_decimal(front, max);
        assert(forall|i: int| 0 <= i < front.len() ==> front[i] == s[i]);
    }
}

/// A text is a number exactly if it holds digits, only digits, and they spell
/// at most `max`; the number is then the one they spell.
pub proof fn lemma_number_in_is_decimal(s: Seq<char>, max: nat)
    ensures
        number_in(s, max) is Ok <==> digits_of(s).len() > 0 && all_digits(digits_of(s)) && decimal(
            digits_of(s),
        ) <= max,
        number_in(s, max) matches Ok(n) ==> n == decimal(digits_of(s)),
{
    lemma_read_digits_is_decimal(digits_of(s), max);
}

/// Once reading has failed, more characters change nothing.
proof fn lemma_failure_is_final(s: Seq<char>, k: int, max: nat)
    requires
        0 <= k <= s.len(),
        read_digits(s.take(k), max) is Err,
    ensures
        read_digits(s, max) == read_digits(s.take(k), max),
    decreases s.len() - k,
{
    if k < s.len() {
        assert(s.take(k + 1).drop_last() =~= s.take(k));
        lemma_failure_is_final(s, k + 1, max);
    } else {
        assert(s.take(k) =~= s);
    }
}

/// Reads `text` as a number of at most `max`.
pub fn parse_number(text: &str, max: u64) -> (r: Result<u64, NumberError>)
    ensures
        number_in(text@, max as nat) matches Ok(n) ==> r == Ok::<u64, NumberError>(n as u64),
        number_in(text@, max as nat) matches Err(e) ==> r == Err::<u64, NumberError>(e),
{
    let n = text.unicode_len();
    if n == 0 {
        return Err(NumberError::Empty);
    }
    let start: usize = if text.get_char(0) == '+' {
        1
    } else {
        0
    };
    if start == n {
        return Err(NumberError::InvalidDigit);
    }
    let ghost digits = digits_of(text@);
    let mut value: u64 = 0;
    let mut i: usize = start;
    while i < n
        invariant
            start <= i <= n,
            n == text@.len(),
            digits == text@.skip(start as int),
            number_in(text@, max as nat) == read_digits(digits, max as nat),
            read_digits(digits.take(i - start), max as nat) == Ok::<nat, NumberError>(
                value as nat,
            ),
            value <= max,
        decreases n - i,
    {
        let c = text.get_char(i);
        let ghost k = i - start;
        assert(digits.take(k + 1).drop_last() =~= digits.take(k));
        if c < '0' || c > '9' {
            proof {
                assert(read_digits(digits.take(k + 1), max as nat) == Err::<nat, NumberError>(
                    NumberError::InvalidDigit,
                ));
                lemma_failure_is_final(digits, k + 1, max as nat);
            }
            return Err(NumberError::InvalidDigit);
        }
        let d: u64 = (c as u32 - '0' as u32) as u64;
        if d > max || value > (max - d) / 10 {
            proof {
                assert(read_digits(digits.take(k + 1), max as nat) == Err::<nat, NumberError>(
                    NumberError::Overflow,
                ));
                lemma_failure_is_final(digits, k + 1, max as nat);
            }
            return Err(NumberError::Overflow);
        }
        value = value * 10 + d;
        i += 1;
    }
    assert(digits.take(n - start) =~= digits);
    Ok(value)
}

} // verus!
