use vstd::prelude::*;
use crate::text::{decimal, push_decimal, push_str};

verus! {

/// `n` in decimal, padded with a leading zero to at least two digits.
pub open spec fn two_digits(n: u32) -> Seq<char> {
    if n < 10 {
        "0"@ + decimal(n as nat)
    } else {
        decimal(n as nat)
    }
}

/// A log line: `[hh:mm:ss][tag] message`, each time field at least two digits.
pub open spec fn log_line_text(hour: u32, minute: u32, second: u32, tag: Seq<char>, message: Seq<char>) -> Seq<char> {
    "["@ + two_digits(hour) + ":"@ + two_digits(minute) + ":"@ + two_digits(second) + "]["@ + tag + "] "@
        + message
}

fn push_two_digits(s: &mut String, n: u32)
    ensures
        final(s)@ == old(s)@ + two_digits(n),
{
    if n < 10 {
        push_str(s, "0");
    }
    push_decimal(s, n as u64);
    assert(final(s)@ =~= old(s)@ + two_digits(n));
}

/// The log line for `message` under `tag` at the given local time of day.
pub fn log_line(hour: u32, minute: u32, second: u32, tag: &str, message: &str) -> (s: String)
    ensures
        s@ == log_line_text(hour, minute, second, tag@, message@),
{
    let mut s = String::new();
    push_str(&mut s, "[");
    push_two_digits(&mut s, hour);
    push_str(&mut s, ":");
    push_two_digits(&mut s, minute);
    push_str(&mut s, ":");
    push_two_digits(&mut s, second);
    push_str(&mut s, "][");
    push_str(&mut s, tag);
    push_str(&mut s, "] ");
    push_str(&mut s, message);
    assert(s@ =~= log_line_text(hour, minute, second, tag@, message@));
    s
}

} // verus!
