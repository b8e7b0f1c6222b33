//! Numbers as they are shown.

use vstd::prelude::*;
use vstd::string::StringExecFns;

verus! {

/// The character for a digit; `'0'` for a number that is no digit.
pub open spec fn digit(value: nat) -> char {
    if value == 1 {
        '1'
    } else if value == 2 {
        '2'
    } else if value == 3 {
        '3'
    } else if value == 4 {
        '4'
    } else if value == 5 {
        '5'
    } else if value == 6 {
        '6'
    } else if value == 7 {
        '7'
    } else if value == 8 {
        '8'
    } else if value == 9 {
        '9'
    } else {
        '0'
    }
}

/// The decimal digits of a number, without leading zeros.
pub open spec fn decimal(value: nat) -> Seq<char>
    decreases value,
{
    if value < 10 {
        seq![digit(value)]
    } else {
        decimal(value / 10).push(digit(value % 10))
    }
}

/// Writes the number with std's `format!`. The standard library prints an
/// unsigned integer in decimal digits without leading zeros.
#[verifier::external_body]
fn format_number(value: usize) -> (text: String)
    ensures
        text@ == decimal(value as nat),
{
    format!("{}", value)
}

/// The number in decimal digits.
pub fn number_text(value: usize) -> (text: String)
    ensures
        text@ == decimal(value as nat),
{
    format_number(value)
}

/// The number in decimal digits after a minus sign.
pub fn minus_text(value: usize) -> (text: String)
    ensures
        text@ == seq!['-'] + decimal(value as nat),
{
    let mut text = String::from_str("-");
    proof {
        reveal_strlit("-");
    }
    let number = format_number(value);
    text.append(number.as_str());
    assert(text@ =~= seq!['-'] + decimal(value as nat));
    text
}

/// The number in decimal digits after a dollar sign.
pub fn dollar_text(value: usize) -> (text: String)
    ensures
        text@ == seq!['$'] + decimal(value as nat),
{
    let mut text = String::from_str("$");
    proof {
        reveal_strlit("$");
    }
    let number = format_number(value);
    text.append(number.as_str());
    assert(text@ =~= seq!['$'] + decimal(value as nat));
    text
}

} // verus!
