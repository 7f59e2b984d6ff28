//! The numeric argument of a stage command.
//!
//! A stage command may be followed by one word. Where there is none the
//! entry meant is number 1. Where there is one it has to be a number that
//! fits in 32 bits, written in decimal digits with at most a `+` in front.

use vstd::prelude::*;
use crate::decimal::{decimal_digits, digit_char, digit_of, digit_value};
use crate::text::chars_of;

verus! {

/// Why a word is not a number.
#[derive(Clone, Copy, Debug, PartialEq, Eq, Structural)]
pub enum ArgumentFormatError {
    /// The word is empty.
    Empty,
    /// The word holds something other than a digit, or a sign and nothing else.
    InvalidDigit,
    /// The number does not fit in 32 bits.
    PosOverflow,
}

/// The number reached from `acc` by reading `digits` from the left. The
/// first character that is no digit, or that takes the number past 32 bits,
/// decides the error.
pub open spec fn read_digits(digits: Seq<char>, acc: int) -> Result<int, ArgumentFormatError>
    decreases digits.len(),
{
    if digits.len() == 0 {
        Ok(acc)
    } else {
        match digit_value(digits[0]) {
            None => Err(ArgumentFormatError::InvalidDigit),
            Some(d) => if acc * 10 + d > u32::MAX {
                Err(ArgumentFormatError::PosOverflow)
            } else {
                read_digits(digits.drop_first(), acc * 10 + d)
            },
        }
    }
}

/// The number that `word` writes.
pub open spec fn number_of(word: Seq<char>) -> Result<u32, ArgumentFormatError> {
    if word.len() == 0 {
        Err(ArgumentFormatError::Empty)
    } else {
        let digits = if word[0] == '+' {
            word.drop_first()
        } else {
            word
        };
        if digits.len() == 0 {
            Err(ArgumentFormatError::InvalidDigit)
        } else {
            match read_digits(digits, 0) {
                Ok(n) => Ok(n as u32),
                Err(e) => Err(e),
            }
        }
    }
}

/// The argument as characters.
pub open spec fn word_of(argument: Option<&str>) -> Option<Seq<char>> {
    match argument {
        Some(word) => Some(word@),
        None => None,
    }
}

/// The entry that a command with this argument means.
pub open spec fn id_of(argument: Option<Seq<char>>) -> Result<u32, ArgumentFormatError> {
    match argument {
        None => Ok(1),
        Some(word) => number_of(word),
    }
}

/// Reads the number that `word` writes.
pub fn read_number(word: &str) -> (res: Result<u32, ArgumentFormatError>)
    ensures
        res == number_of(word@),
{
    let chars = chars_of(word);
    if chars.len() == 0 {
        return Err(ArgumentFormatError::Empty);
    }
    let start: usize = if chars[0] == '+' {
        1
    } else {
        0
    };
    if start == chars.len() {
        return Err(ArgumentFormatError::InvalidDigit);
    }
    let ghost digits = chars@.skip(start as int);
    assert(digits =~= if word@[0] == '+' {
        word@.drop_first()
    } else {
        word@
    });
    let mut acc: u32 = 0;
    let mut i: usize = start;
    while i < chars.len()
        invariant
            start <= i <= chars.len(),
            number_of(word@) == match read_digits(chars@.skip(i as int), acc as int) {
                Ok(n) => Ok::<u32, ArgumentFormatError>(n as u32),
                Err(e) => Err(e),
            },
        decreases chars.len() - i,
    {
        assert(chars@.skip(i as int).drop_first() =~= chars@.skip(i + 1));
        let d = match digit_of(chars[i]) {
            Some(d) => d,
            None => {
                return Err(ArgumentFormatError::InvalidDigit);
            },
        };
        let tens = match acc.checked_mul(10) {
            Some(tens) => tens,
            None => {
                return Err(ArgumentFormatError::PosOverflow);
            },
        };
        acc = match tens.checked_add(d) {
            Some(sum) => sum,
            None => {
                return Err(ArgumentFormatError::PosOverflow);
            },
        };
        i += 1;
    }
    Ok(acc)
}

/// The entry that a command means: 1 without an argument, else the number
/// that the argument writes.
pub fn get_id(argument: Option<&str>) -> (res: Result<u32, ArgumentFormatError>)
    ensures
        res == id_of(word_of(argument)),
{
    match argument {
        None => Ok(1),
        Some(word) => read_number(word),
    }
}

/// Reading a single character: a digit is added to ten times what was
/// read so far.
proof fn lemma_read_one(c: char, acc: int)
    ensures
        read_digits(seq![c], acc) == match digit_value(c) {
            None => Err::<int, ArgumentFormatError>(ArgumentFormatError::InvalidDigit),
            Some(d) => if acc * 10 + d > u32::MAX {
                Err(ArgumentFormatError::PosOverflow)
            } else {
                Ok(acc * 10 + d)
            },
        },
{
    reveal_with_fuel(read_digits, 2);
    assert(seq![c].drop_first() =~= Seq::<char>::empty());
}

/// Reading on after one more character: as if it were read alone, from
/// what was read so far.
proof fn lemma_read_digits_push(digits: Seq<char>, c: char, acc: int)
    ensures
        read_digits(digits.push(c), acc) == match read_digits(digits, acc) {
            Ok(n) => read_digits(seq![c], n),
            Err(e) => Err(e),
        },
    decreases digits.len(),
{
    if digits.len() == 0 {
        assert(digits.push(c) =~= seq![c]);
    } else {
        assert(digits.push(c).drop_first() =~= digits.drop_first().push(c));
        match digit_value(digits[0]) {
            None => {},
            Some(d) => {
                if acc * 10 + d <= u32::MAX {
                    lemma_read_digits_push(digits.drop_first(), c, acc * 10 + d);
                }
            },
        }
    }
}

/// The digits of a number read back as that number.
proof fn lemma_digits_read_back(n: nat)
    requires
        n <= u32::MAX,
    ensures
        read_digits(decimal_digits(n), 0) == Ok::<int, ArgumentFormatError>(n as int),
    decreases n,
{
    if n < 10 {
        lemma_read_one(digit_char(n as int), 0);
    } else {
        lemma_digits_read_back(n / 10);
        let c = digit_char((n % 10) as int);
        lemma_read_digits_push(decimal_digits(n / 10), c, 0);
        lemma_read_one(c, (n / 10) as int);
    }
}

/// A number written in decimal is a word that reads back as that number.
pub proof fn lemma_decimal_reads_back(n: u32)
    ensures
        number_of(decimal_digits(n as nat)) == Ok::<u32, ArgumentFormatError>(n),
{
    lemma_digits_read_back(n as nat);
    lemma_decimal_starts_with_digit(n as nat);
}

/// The decimal digits of a number are not empty and start with a digit.
proof fn lemma_decimal_starts_with_digit(n: nat)
    ensures
        decimal_digits(n).len() > 0,
        digit_value(decimal_digits(n)[0]) is Some,
    decreases n,
{
    if n >= 10 {
        lemma_decimal_starts_with_digit(n / 10);
    }
}

} // verus!
