//! The requested number of vector pairs, read from the command line.
//!
//! The count is written as an optional `+` followed by one or more decimal
//! digits; zero is a count like any other. Anything else, or a number too large for the machine, is not a
//! count, and the run falls back to [`DEFAULT_VECTOR_COUNT`] without
//! complaint.

use vstd::prelude::*;
use vstd::string::*;

verus! {

/// Pairs in a run that was not told otherwise.
pub const DEFAULT_VECTOR_COUNT: usize = 10_000_000;

/// Whether `c` is one of `0` to `9`.
pub open spec fn is_digit(c: char) -> bool {
    '0' <= c <= '9'
}

/// The number that the digit `c` stands for.
pub open spec fn digit_value(c: char) -> nat {
    (c as int - '0' as int) as nat
}

/// Whether `s` holds digits only.
pub open spec fn all_digits(s: Seq<char>) -> bool {
    forall|i: int| 0 <= i < s.len() ==> is_digit(#[trigger] s[i])
}

/// The number that a string of digits denotes, most significant digit first.
/// The empty string denotes zero.
pub open spec fn digits_value(s: Seq<char>) -> nat
    decreases s.len(),
{
    if s.len() == 0 {
        0
    } else {
        digits_value(s.drop_last()) * 10 + digit_value(s.last())
    }
}

/// `s` without its leading `+`, if it has one.
pub open spec fn unsigned_part(s: Seq<char>) -> Seq<char> {
    if s.len() > 0 && s[0] == '+' {
        s.drop_first()
    } else {
        s
    }
}

/// The count that `s` denotes, if it denotes one.
pub open spec fn parse_count(s: Seq<char>) -> Option<usize> {
    let digits = unsigned_part(s);
    if digits.len() > 0 && all_digits(digits) && digits_value(digits) <= usize::MAX {
        Some(digits_value(digits) as usize)
    } else {
        None
    }
}

/// The count that a run uses, given its command line: the first argument
/// after the program's name where that denotes a count, the default
/// otherwise.
pub open spec fn count_from_args(args: Seq<Seq<char>>) -> usize {
    if args.len() > 1 {
        match parse_count(args[1]) {
            Some(count) => count,
            None => DEFAULT_VECTOR_COUNT,
        }
    } else {
        DEFAULT_VECTOR_COUNT
    }
}

/// A string of digits denotes at least as much as any of its prefixes.
pub proof fn lemma_digits_value_prefix(s: Seq<char>, len: int)
    requires
        0 <= len <= s.len(),
    ensures
        digits_value(s.take(len)) <= digits_value(s),
    decreases s.len(),
{
    if len == s.len() {
        assert(s.take(len) =~= s);
    } else {
        lemma_digits_value_prefix(s.drop_last(), len);
        assert(s.drop_last().take(len) =~= s.take(len));
    }
}

/// Reads a count from one command-line argument.
pub fn parse_vector_count(arg: &str) -> (count: Option<usize>)
    ensures
        count == parse_count(arg@),
{
    if !arg.is_ascii() {
        proof {
            let i = choose|i: int| 0 <= i < arg@.len() && !('\0' <= #[trigger] arg@[i] <= '\u{7f}');
            let digits = unsigned_part(arg@);
            if digits.len() == arg@.len() {
                assert(!is_digit(digits[i]));
            } else {
                assert(!is_digit(digits[i - 1]));
            }
        }
        return None;
    }
    let bytes = arg.as_bytes();
    proof {
        is_ascii_spec_bytes(arg);
    }
    let len = bytes.len();
    let start: usize = if len > 0 && bytes[0] == 43u8 {
        1
    } else {
        0
    };
    let ghost digits = unsigned_part(arg@);
    assert(digits =~= arg@.skip(start as int));
    if start == len {
        return None;
    }
    let mut value: usize = 0;
    let mut i: usize = start;
    assert(digits.take(0) =~= Seq::<char>::empty());
    while i < len
        invariant
            start <= i <= len,
            len == arg@.len(),
            is_ascii(arg),
            bytes@ == Seq::new(arg@.len(), |k: int| arg@[k] as u8),
            digits == unsigned_part(arg@),
            digits == arg@.skip(start as int),
            all_digits(digits.take(i - start)),
            value == digits_value(digits.take(i - start)),
        decreases len - i,
    {
        let byte = bytes[i];
        let ghost c = digits[i - start];
        assert(c == arg@[i as int]);
        assert(byte == c as u8);
        if byte < 48u8 || byte > 57u8 {
            assert(!is_digit(c));
            return None;
        }
        assert(is_digit(c));
        let digit: usize = (byte - 48u8) as usize;
        assert(digit == digit_value(c));
        let ghost next = digits.take(i - start + 1);
        assert(next.drop_last() =~= digits.take(i - start));
        assert(next.last() == c);
        assert(digits_value(next) == value * 10 + digit);
        if value > (usize::MAX - digit) / 10 {
            proof {
                lemma_digits_value_prefix(digits, i - start + 1);
            }
            return None;
        }
        value = value * 10 + digit;
        i = i + 1;
    }
    assert(digits.take(i - start) =~= digits);
    Some(value)
}

/// Chooses the count for a run from its command line, `args[0]` being the
/// program's name.
pub fn vector_count_from_args(args: &Vec<String>) -> (count: usize)
    ensures
        count == count_from_args(Seq::new(args@.len(), |i: int| args@[i]@)),
{
    if args.len() > 1 {
        match parse_vector_count(args[1].as_str()) {
            Some(count) => count,
            None => DEFAULT_VECTOR_COUNT,
        }
    } else {
        DEFAULT_VECTOR_COUNT
    }
}

} // verus!
