//! The line that reports a newly selected frequency.

use vstd::prelude::*;

verus! {

/// `String::push` of the standard library appends one character to the end
/// of the string and leaves the rest as it was.
pub assume_specification[ String::push ](s: &mut String, ch: char)
    ensures
        final(s)@ == old(s)@.push(ch),
;

/// The character of a decimal digit.
pub open spec fn digit_char(d: nat) -> char {
    ('0' as nat + d) as char
}

/// The decimal numeral of `n`, without leading zeros.
pub open spec fn decimal(n: nat) -> Seq<char>
    decreases n,
{
    if n < 10 {
        seq![digit_char(n)]
    } else {
        decimal(n / 10).push(digit_char(n % 10))
    }
}

/// The text that a frequency line begins with.
pub open spec fn frequency_label() -> Seq<char> {
    "Frequency: "@
}

/// Appends the decimal numeral of `n` to `line`.
fn push_decimal(line: &mut String, n: u32)
    ensures
        final(line)@ == old(line)@ + decimal(n as nat),
    decreases n,
{
    if n >= 10 {
        push_decimal(line, n / 10);
    }
    let d: u8 = (n % 10) as u8;
    line.push((48u8 + d) as char);
}

/// The line for a newly selected frequency: `Frequency: ` and the frequency
/// in hertz as a decimal numeral.
pub fn frequency_line(frequency: u32) -> (line: String)
    ensures
        line@ == frequency_label() + decimal(frequency as nat),
{
    let mut line: String = "Frequency: ".to_owned();
    push_decimal(&mut line, frequency);
    line
}

} // verus!
