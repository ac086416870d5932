//! Progress reporting: one line per successfully composited page carrying
//! the 1-based page count, zero-padded to four digits, and one fixed line
//! before final serialization. The lines are built here, fully verified;
//! the caller only prints them.

use vstd::prelude::*;

verus! {

/// The character of one decimal digit.
pub open spec fn digit_char(d: int) -> char {
    if d == 0 {
        '0'
    } else if d == 1 {
        '1'
    } else if d == 2 {
        '2'
    } else if d == 3 {
        '3'
    } else if d == 4 {
        '4'
    } else if d == 5 {
        '5'
    } else if d == 6 {
        '6'
    } else if d == 7 {
        '7'
    } else if d == 8 {
        '8'
    } else {
        '9'
    }
}

/// The decimal digits of a number, most significant first, no leading zeros
/// (the single digit 0 for zero).
pub open spec fn decimal_digits(n: int) -> Seq<char>
    decreases n,
{
    if n < 10 {
        seq![digit_char(n)]
    } else {
        decimal_digits(n / 10).push(digit_char(n % 10))
    }
}

/// The decimal digits padded with leading zeros to at least four places;
/// larger numbers keep all their digits.
pub open spec fn padded_count(n: int) -> Seq<char> {
    if n < 10 {
        seq!['0', '0', '0'] + decimal_digits(n)
    } else if n < 100 {
        seq!['0', '0'] + decimal_digits(n)
    } else if n < 1000 {
        seq!['0'] + decimal_digits(n)
    } else {
        decimal_digits(n)
    }
}

/// The progress line for the given 1-based page count.
pub open spec fn progress_line_view(n: int) -> Seq<char> {
    seq!['D', 'o', 'w', 'n', 'l', 'o', 'a', 'd', 'e', 'd', ' ', 'p', 'a', 'g', 'e', ' ']
        + padded_count(n) + seq!['.']
}

/// The character of one decimal digit, at run time.
fn digit_of(d: u32) -> (c: char)
    requires
        d < 10,
    ensures
        c == digit_char(d as int),
{
    if d == 0 {
        '0'
    } else if d == 1 {
        '1'
    } else if d == 2 {
        '2'
    } else if d == 3 {
        '3'
    } else if d == 4 {
        '4'
    } else if d == 5 {
        '5'
    } else if d == 6 {
        '6'
    } else if d == 7 {
        '7'
    } else if d == 8 {
        '8'
    } else {
        '9'
    }
}

/// Appends the decimal digits of a number, most significant first.
fn push_decimal(n: u32, out: &mut Vec<char>)
    ensures
        final(out)@ == old(out)@ + decimal_digits(n as int),
    decreases n,
{
    if n < 10 {
        out.push(digit_of(n));
    } else {
        push_decimal(n / 10, out);
        out.push(digit_of(n % 10));
    }
}

/// Builds the progress line for a 1-based page count: the count zero-padded
/// to four digits between the fixed words.
pub fn progress_line(count: u32) -> (line: Vec<char>)
    ensures
        line@ == progress_line_view(count as int),
{
    let mut line: Vec<char> = Vec::new();
    line.push('D');
    line.push('o');
    line.push('w');
    line.push('n');
    line.push('l');
    line.push('o');
    line.push('a');
    line.push('d');
    line.push('e');
    line.push('d');
    line.push(' ');
    line.push('p');
    line.push('a');
    line.push('g');
    line.push('e');
    line.push(' ');
    if count < 10 {
        line.push('0');
        line.push('0');
        line.push('0');
    } else if count < 100 {
        line.push('0');
        line.push('0');
    } else if count < 1000 {
        line.push('0');
    }
    push_decimal(count, &mut line);
    line.push('.');
    proof {
        assert(line@ =~= progress_line_view(count as int));
    }
    line
}

/// The fixed line printed before final serialization.
pub fn saving_line() -> (s: &'static str)
    ensures
        s@ == "Saving the document. This make take a while."@,
{
    "Saving the document. This make take a while."
}

} // verus!
