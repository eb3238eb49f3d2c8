//! The text of the score label.

use vstd::prelude::*;
use crate::components::{Score, Scoreboard};

verus! {

/// The character for one decimal digit.
pub open spec fn digit(d: nat) -> char {
    if d == 0 {
        '0'
    } else if d == 1 {
        '1'
    } else if d == 2 {
        '2'
    } else if d == 3 {
        '3'
    } else if d == 4 {
        '4'
    } else if d == 5 {
        '5'
    } else if d == 6 {
        '6'
    } else if d == 7 {
        '7'
    } else if d == 8 {
        '8'
    } else {
        '9'
    }
}

/// A number written in decimal digits, without leading zeros.
pub open spec fn decimal(n: nat) -> Seq<char>
    decreases n,
{
    if n < 10 {
        seq![digit(n)]
    } else {
        decimal(n / 10).push(digit(n % 10))
    }
}

/// Calls `String::push`, which appends one character to the text.
#[verifier::external_body]
fn push_char(text: &mut String, c: char)
    ensures
        final(text)@ == old(text)@.push(c),
{
    text.push(c);
}

/// Gives the character for a decimal digit.
fn digit_char(d: u32) -> (c: char)
    requires
        d < 10,
    ensures
        c == digit(d as nat),
{
    match d {
        0 => '0',
        1 => '1',
        2 => '2',
        3 => '3',
        4 => '4',
        5 => '5',
        6 => '6',
        7 => '7',
        8 => '8',
        _ => '9',
    }
}

/// Appends `n` in decimal digits to the text.
fn write_decimal(n: u32, text: &mut String)
    ensures
        final(text)@ == old(text)@ + decimal(n as nat),
    decreases n,
{
    if n >= 10 {
        write_decimal(n / 10, text);
    }
    push_char(text, digit_char(n % 10));
}

/// Writes a score in decimal digits.
pub fn score_text(score: &Score) -> (text: String)
    ensures
        text@ == decimal(score.0 as nat),
{
    let mut text = String::new();
    write_decimal(score.0, &mut text);
    text
}

impl Scoreboard {
    /// Shows `score` on the label.
    pub fn show(&mut self, score: &Score)
        ensures
            final(self).text@ == decimal(score.0 as nat),
            final(self).transform == old(self).transform,
    {
        self.text = score_text(score);
    }
}

} // verus!
