//! Integer addition and Fibonacci numbers, with the text that reports a
//! Fibonacci number to a host.
//!
//! The [`engine`] module computes; the functions of this module are the
//! boundary a host calls: they hand plain integers to the engine and give
//! back an integer or a finished message. All arithmetic is on fixed-width
//! unsigned integers and wraps around modulo 2^64 on overflow, so nothing
//! here fails or panics.

use vstd::prelude::*;
use vstd::string::*;

pub mod decimal;
pub mod engine;

verus! {

/// The message that reports `value` as the Fibonacci number at `index`:
/// `The fibonacci of {index} is {value}.`, both numbers in decimal.
pub open spec fn message_text(index: nat, value: nat) -> Seq<char> {
    "The fibonacci of "@ + decimal::decimal(index) + " is "@ + decimal::decimal(value) + "."@
}

/// Adds two numbers for a host: both go to [`engine::add`] unchanged, and
/// its result comes back unchanged.
pub fn add(left: u64, right: u64) -> (sum: u64)
    ensures
        sum == engine::wrapped_sum(left, right),
        left + right <= u64::MAX ==> sum == left + right,
{
    crate::engine::add(left, right)
}

/// Writes the message for a given index and value.
pub fn format_message(index: u32, value: u64) -> (text: String)
    ensures
        text@ == message_text(index as nat, value as nat),
{
    let mut text = String::from_str("The fibonacci of ");
    decimal::append_decimal(&mut text, index as u64);
    text.append(" is ");
    decimal::append_decimal(&mut text, value);
    text.append(".");
    text
}

/// Computes the Fibonacci number at `n` and reports it as a message. Up to
/// [`engine::MAX_EXACT_INDEX`] the number in the message is the true
/// Fibonacci value; beyond it, that value modulo 2^64.
pub fn return_message(n: u32) -> (text: String)
    ensures
        text@ == message_text(n as nat, engine::wrapped_fibonacci(n as nat) as nat),
        n <= engine::MAX_EXACT_INDEX ==> text@ == message_text(
            n as nat,
            engine::fibonacci_value(n as nat),
        ),
{
    format_message(n, engine::fibonacci(n))
}

} // verus!
