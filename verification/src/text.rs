//! The text of error descriptions.

use vstd::prelude::*;

verus! {

/// The character of a decimal digit.
pub open spec fn digit_char(digit: int) -> char {
    if digit == 0 {
        '0'
    } else if digit == 1 {
        '1'
    } else if digit == 2 {
        '2'
    } else if digit == 3 {
        '3'
    } else if digit == 4 {
        '4'
    } else if digit == 5 {
        '5'
    } else if digit == 6 {
        '6'
    } else if digit == 7 {
        '7'
    } else if digit == 8 {
        '8'
    } else {
        '9'
    }
}

/// The decimal digits of a natural number, most significant first, without
/// leading zeros.
pub open spec fn natural_text(n: nat) -> Seq<char>
    decreases n,
{
    if n < 10 {
        seq![digit_char(n as int)]
    } else {
        natural_text(n / 10).push(digit_char((n % 10) as int))
    }
}

/// An integer in decimal, with a minus sign in front if it is negative.
pub open spec fn decimal_text(value: int) -> Seq<char> {
    if value < 0 {
        seq!['-'] + natural_text((-value) as nat)
    } else {
        natural_text(value as nat)
    }
}

/// The description of an answer that an engine must not give: the name of
/// the call, the words " returned invalid value: ", and the answer in
/// decimal.
pub open spec fn invalid_value_text(call: Seq<char>, value: int) -> Seq<char> {
    call + " returned invalid value: "@ + decimal_text(value)
}

/// Formats a 32-bit integer with `format!("{}", ..)`. The standard library
/// prints such an integer in decimal, with a minus sign in front if it is
/// negative; the contract claims exactly that text.
#[verifier::external_body]
pub(crate) fn decimal(value: i32) -> (text: String)
    ensures
        text@ == decimal_text(value as int),
{
    format!("{}", value)
}

/// Formats two strings one after the other with `format!("{}{}", ..)`. The
/// contract claims that the result is the first text followed by the second.
#[verifier::external_body]
pub(crate) fn joined(head: &str, tail: &str) -> (text: String)
    ensures
        text@ == head@ + tail@,
{
    format!("{}{}", head, tail)
}

/// The description of the answer `value` that the call named `call` must not
/// give.
pub fn invalid_value_message(call: &str, value: i32) -> (text: String)
    ensures
        text@ == invalid_value_text(call@, value as int),
{
    let head = joined(call, " returned invalid value: ");
    let digits = decimal(value);
    joined(head.as_str(), digits.as_str())
}

} // verus!
