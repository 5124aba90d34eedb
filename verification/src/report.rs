//! The lines that a run prints, as text.
//!
//! Whole numbers are written in decimal here. The sum and the total time are
//! fractional; their callers hand them over already written out.

use crate::count::{all_digits, digit_value, digits_value, is_digit, parse_count, unsigned_part};
use crate::elapsed::TimeBreakdown;
use vstd::prelude::*;
use vstd::string::*;

verus! {

/// The character that writes the digit `d`.
pub open spec fn digit_char(d: nat) -> char {
    if d == 0 {
        '0'
    } else if d == 1 {
        '1'
    } else if d == 2 {
        '2'
    } else if d == 3 {
        '3'
    } else if d == 4 {
        '4'
    } else if d == 5 {
        '5'
    } else if d == 6 {
        '6'
    } else if d == 7 {
        '7'
    } else if d == 8 {
        '8'
    } else {
        '9'
    }
}

/// `n` in decimal, without sign or leading zeros.
pub open spec fn decimal_digits(n: nat) -> Seq<char>
    decreases n,
{
    if n < 10 {
        seq![digit_char(n)]
    } else {
        decimal_digits(n / 10).push(digit_char(n % 10))
    }
}

/// The line that opens a run for `count` pairs.
pub open spec fn size_line_text(count: nat) -> Seq<char> {
    "Running Rust vector dot product benchmark with size: "@ + decimal_digits(count)
}

/// The line that announces the generation of `count` pairs.
pub open spec fn generating_line_text(count: nat) -> Seq<char> {
    "Generating "@ + decimal_digits(count) + " random 3D vectors..."@
}

/// The line that carries the sum, given the sum as text.
pub open spec fn result_line_text(sum: Seq<char>) -> Seq<char> {
    "Result: "@ + sum
}

/// The line that carries the three parts of the measured time.
pub open spec fn breakdown_line_text(parts: TimeBreakdown) -> Seq<char> {
    "Time breakdown: "@ + decimal_digits(parts.minutes as nat) + " minutes, "@ + decimal_digits(
        parts.seconds as nat,
    ) + " seconds, "@ + decimal_digits(parts.milliseconds as nat) + " milliseconds"@
}

/// The line that carries the measured time in seconds, given that time as
/// text.
pub open spec fn total_seconds_line_text(seconds: Seq<char>) -> Seq<char> {
    "Total time in seconds: "@ + seconds
}

/// The one-character text of a digit.
fn digit_str(d: u8) -> (s: &'static str)
    requires
        d < 10,
    ensures
        s@ == seq![digit_char(d as nat)],
{
    proof {
        reveal_strlit("0");
        reveal_strlit("1");
        reveal_strlit("2");
        reveal_strlit("3");
        reveal_strlit("4");
        reveal_strlit("5");
        reveal_strlit("6");
        reveal_strlit("7");
        reveal_strlit("8");
        reveal_strlit("9");
    }
    let s = if d == 0 {
        "0"
    } else if d == 1 {
        "1"
    } else if d == 2 {
        "2"
    } else if d == 3 {
        "3"
    } else if d == 4 {
        "4"
    } else if d == 5 {
        "5"
    } else if d == 6 {
        "6"
    } else if d == 7 {
        "7"
    } else if d == 8 {
        "8"
    } else {
        "9"
    };
    assert(s@ =~= seq![digit_char(d as nat)]);
    s
}

/// Writes `n` in decimal.
pub fn render_decimal(n: u128) -> (text: String)
    ensures
        text@ == decimal_digits(n as nat),
    decreases n,
{
    if n < 10 {
        String::from_str(digit_str(n as u8))
    } else {
        let mut text = render_decimal(n / 10);
        text.append(digit_str((n % 10) as u8));
        assert(text@ =~= decimal_digits(n as nat));
        text
    }
}

/// `Running Rust vector dot product benchmark with size: ` and the count.
pub fn size_line(count: usize) -> (line: String)
    ensures
        line@ == size_line_text(count as nat),
{
    let mut line = String::from_str("Running Rust vector dot product benchmark with size: ");
    line.append(render_decimal(count as u128).as_str());
    line
}

/// `Generating `, the count, and ` random 3D vectors...`.
pub fn generating_line(count: usize) -> (line: String)
    ensures
        line@ == generating_line_text(count as nat),
{
    let mut line = String::from_str("Generating ");
    line.append(render_decimal(count as u128).as_str());
    line.append(" random 3D vectors...");
    line
}

/// The line that precedes the timed work.
pub fn starting_line() -> (line: String)
    ensures
        line@ == "Starting benchmark..."@,
{
    String::from_str("Starting benchmark...")
}

/// `Result: ` and the sum as the caller wrote it.
pub fn result_line(sum: &str) -> (line: String)
    ensures
        line@ == result_line_text(sum@),
{
    let mut line = String::from_str("Result: ");
    line.append(sum);
    line
}

/// `Time breakdown: ` and the three parts with their units.
pub fn breakdown_line(parts: &TimeBreakdown) -> (line: String)
    ensures
        line@ == breakdown_line_text(*parts),
{
    let mut line = String::from_str("Time breakdown: ");
    line.append(render_decimal(parts.minutes).as_str());
    line.append(" minutes, ");
    line.append(render_decimal(parts.seconds as u128).as_str());
    line.append(" seconds, ");
    line.append(render_decimal(parts.milliseconds as u128).as_str());
    line.append(" milliseconds");
    line
}

/// `Total time in seconds: ` and the time as the caller wrote it.
pub fn total_seconds_line(seconds: &str) -> (line: String)
    ensures
        line@ == total_seconds_line_text(seconds@),
{
    let mut line = String::from_str("Total time in seconds: ");
    line.append(seconds);
    line
}

/// A number written in decimal is a non-empty string of digits that
/// denotes that number.
pub proof fn lemma_decimal_digits_value(n: nat)
    ensures
        decimal_digits(n).len() > 0,
        all_digits(decimal_digits(n)),
        digits_value(decimal_digits(n)) == n,
    decreases n,
{
    let text = decimal_digits(n);
    if n < 10 {
        assert(text.drop_last() =~= Seq::<char>::empty());
        assert(digits_value(text.drop_last()) == 0);
        assert(digit_value(text.last()) == n);
    } else {
        lemma_decimal_digits_value(n / 10);
        assert(text.drop_last() =~= decimal_digits(n / 10));
        assert(text.last() == digit_char(n % 10));
        assert(digit_value(text.last()) == n % 10);
        assert forall|i: int| 0 <= i < text.len() implies is_digit(#[trigger] text[i]) by {
            if i < text.len() - 1 {
                assert(text[i] == decimal_digits(n / 10)[i]);
            }
        }
    }
}

/// Reading back a count that was written in decimal gives that count.
pub proof fn lemma_parse_of_rendered(count: usize)
    ensures
        parse_count(decimal_digits(count as nat)) == Some(count),
{
    let text = decimal_digits(count as nat);
    lemma_decimal_digits_value(count as nat);
    assert(is_digit(text[0]));
    assert(unsigned_part(text) == text);
}

} // verus!
