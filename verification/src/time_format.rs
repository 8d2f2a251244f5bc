//! The text in which the renderer reports a duration: hours and minutes, or
//! minutes and seconds, or seconds alone.
use vstd::prelude::*;

verus! {

/// The character of a decimal digit.
pub open spec fn digit_char(d: nat) -> char {
    if d == 0 {
        '0'
    } else if d == 1 {
        '1'
    } else if d == 2 {
        '2'
    } else if d == 3 {
        '3'
    } else if d == 4 {
        '4'
    } else if d == 5 {
        '5'
    } else if d == 6 {
        '6'
    } else if d == 7 {
        '7'
    } else if d == 8 {
        '8'
    } else {
        '9'
    }
}

/// The decimal numeral of `n`, without leading zeros.
pub open spec fn decimal(n: nat) -> Seq<char>
    decreases n,
{
    if n < 10 {
        seq![digit_char(n)]
    } else {
        decimal(n / 10).push(digit_char(n % 10))
    }
}

/// Whole hours, then minutes and seconds of what is left.
pub open spec fn time_parts(seconds: nat) -> (nat, nat, nat) {
    (seconds / 3600, (seconds % 3600) / 60, seconds % 60)
}

/// The report of a duration: `"{h}h {m}m"` when it reaches an hour,
/// `"{m}m {s}s"` when it reaches a minute, `"{s}s"` otherwise.
pub open spec fn time_text(seconds: nat) -> Seq<char> {
    let (hour, minute, second) = time_parts(seconds);
    if hour > 0 {
        decimal(hour) + seq!['h', ' '] + decimal(minute) + seq!['m']
    } else if minute > 0 {
        decimal(minute) + seq!['m', ' '] + decimal(second) + seq!['s']
    } else {
        decimal(second) + seq!['s']
    }
}

/// Splits a number of seconds into whole hours, minutes and seconds.
pub fn split_time(seconds: u32) -> (parts: (u32, u32, u32))
    ensures
        (parts.0 as nat, parts.1 as nat, parts.2 as nat) == time_parts(seconds as nat),
        parts.0 * 3600 + parts.1 * 60 + parts.2 == seconds,
        parts.1 < 60,
        parts.2 < 60,
{
    let hour = seconds / 3600;
    let minute = (seconds % 3600) / 60;
    let second = seconds % 60;
    assert(hour * 3600 + minute * 60 + second == seconds) by (nonlinear_arith)
        requires
            hour == seconds / 3600,
            minute == (seconds % 3600) / 60,
            second == seconds % 60,
    ;
    (hour, minute, second)
}

/// The one-character string of a decimal digit.
fn digit_str(d: u32) -> (text: &'static str)
    requires
        d < 10,
    ensures
        text@ == seq![digit_char(d as nat)],
{
    proof {
        reveal_strlit("0");
        reveal_strlit("1");
        reveal_strlit("2");
        reveal_strlit("3");
        reveal_strlit("4");
        reveal_strlit("5");
        reveal_strlit("6");
        reveal_strlit("7");
        reveal_strlit("8");
        reveal_strlit("9");
    }
    if d == 0 {
        "0"
    } else if d == 1 {
        "1"
    } else if d == 2 {
        "2"
    } else if d == 3 {
        "3"
    } else if d == 4 {
        "4"
    } else if d == 5 {
        "5"
    } else if d == 6 {
        "6"
    } else if d == 7 {
        "7"
    } else if d == 8 {
        "8"
    } else {
        "9"
    }
}

/// Appends the decimal numeral of `n` to `text`.
fn push_decimal(text: &mut String, n: u32)
    ensures
        final(text)@ == old(text)@ + decimal(n as nat),
    decreases n,
{
    if n >= 10 {
        push_decimal(text, n / 10);
    }
    text.append(digit_str(n % 10));
    proof {
        if n >= 10 {
            assert(decimal(n as nat) == decimal((n / 10) as nat).push(digit_char((n % 10) as nat)));
        }
    }
}

/// The text in which the renderer reports a duration of `seconds`.
pub fn format_time(seconds: u32) -> (text: String)
    ensures
        text@ == time_text(seconds as nat),
{
    let (hour, minute, second) = split_time(seconds);
    let mut text = String::new();
    proof {
        reveal_strlit("h ");
        reveal_strlit("m");
        reveal_strlit("m ");
        reveal_strlit("s");
    }
    if hour > 0 {
        push_decimal(&mut text, hour);
        text.append("h ");
        push_decimal(&mut text, minute);
        text.append("m");
    } else if minute > 0 {
        push_decimal(&mut text, minute);
        text.append("m ");
        push_decimal(&mut text, second);
        text.append("s");
    } else {
        push_decimal(&mut text, second);
        text.append("s");
    }
    assert(text@ =~= time_text(seconds as nat));
    text
}

} // verus!
