//! The time of day, as the message pane shows it in its title.

use chrono::{Local, Timelike};
use vstd::prelude::*;

verus! {

/// The character of a decimal digit.
pub open spec fn digit(value: nat) -> char
    recommends
        value < 10,
{
    if value == 0 {
        '0'
    } else if value == 1 {
        '1'
    } else if value == 2 {
        '2'
    } else if value == 3 {
        '3'
    } else if value == 4 {
        '4'
    } else if value == 5 {
        '5'
    } else if value == 6 {
        '6'
    } else if value == 7 {
        '7'
    } else if value == 8 {
        '8'
    } else {
        '9'
    }
}

/// A number in decimal notation, without leading zeros.
pub open spec fn decimal(value: nat) -> Seq<char>
    decreases value,
{
    if value < 10 {
        seq![digit(value)]
    } else {
        decimal(value / 10).push(digit(value % 10))
    }
}

/// A number in decimal notation, with a leading zero where it has one digit.
pub open spec fn two_digits(value: nat) -> Seq<char> {
    if value < 10 {
        seq!['0'] + decimal(value)
    } else {
        decimal(value)
    }
}

/// A time of day as text: hour, minute and second, two digits each at
/// least, with colons between them.
pub open spec fn clock_text(hour: nat, minute: nat, second: nat) -> Seq<char> {
    two_digits(hour) + seq![':'] + two_digits(minute) + seq![':'] + two_digits(second)
}

fn digit_char(value: u64) -> (ch: char)
    requires
        value < 10,
    ensures
        ch == digit(value as nat),
{
    match value {
        0 => '0',
        1 => '1',
        2 => '2',
        3 => '3',
        4 => '4',
        5 => '5',
        6 => '6',
        7 => '7',
        8 => '8',
        _ => '9',
    }
}

/// Appends `value` in decimal notation.
pub fn push_decimal(text: &mut String, value: u64)
    ensures
        final(text)@ == old(text)@ + decimal(value as nat),
    decreases value,
{
    if value < 10 {
        text.push(digit_char(value));
        assert(text@ =~= old(text)@ + decimal(value as nat));
    } else {
        push_decimal(text, value / 10);
        text.push(digit_char(value % 10));
        assert(text@ =~= old(text)@ + decimal(value as nat));
    }
}

/// Appends `value` in decimal notation, two digits at least.
fn push_two_digits(text: &mut String, value: u64)
    ensures
        final(text)@ == old(text)@ + two_digits(value as nat),
{
    if value < 10 {
        text.push('0');
    }
    push_decimal(text, value);
    assert(text@ =~= old(text)@ + two_digits(value as nat));
}

/// The text of a time of day.
pub fn format_time(hour: u32, minute: u32, second: u32) -> (text: String)
    ensures
        text@ == clock_text(hour as nat, minute as nat, second as nat),
{
    let mut text = String::new();
    push_two_digits(&mut text, hour as u64);
    text.push(':');
    push_two_digits(&mut text, minute as u64);
    text.push(':');
    push_two_digits(&mut text, second as u64);
    assert(text@ =~= clock_text(hour as nat, minute as nat, second as nat));
    text
}

/// `Local::now` of the `chrono` crate, read through `Timelike::hour`,
/// `minute` and `second`: the local time of day at the moment of the call.
/// The contract claims only the ranges that chrono documents: an hour from
/// 0 to 23, a minute and a second from 0 to 59.
#[verifier::external_body]
pub(crate) fn local_time() -> (now: (u32, u32, u32))
    ensures
        now.0 < 24,
        now.1 < 60,
        now.2 < 60,
{
    let now = Local::now();
    (now.hour(), now.minute(), now.second())
}

} // verus!
