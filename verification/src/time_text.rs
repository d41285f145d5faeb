//! Decimal and clock texts of whole numbers.

use vstd::prelude::*;

verus! {

/// The character of one decimal digit.
pub open spec fn digit_char(d: nat) -> char {
    if d == 0 {
        '0'
    } else if d == 1 {
        '1'
    } else if d == 2 {
        '2'
    } else if d == 3 {
        '3'
    } else if d == 4 {
        '4'
    } else if d == 5 {
        '5'
    } else if d == 6 {
        '6'
    } else if d == 7 {
        '7'
    } else if d == 8 {
        '8'
    } else {
        '9'
    }
}

/// The decimal digits of `n`, most significant first, without leading zeros.
pub open spec fn decimal_text(n: nat) -> Seq<char>
    decreases n,
{
    if n < 10 {
        seq![digit_char(n)]
    } else {
        decimal_text(n / 10).push(digit_char(n % 10))
    }
}

/// The decimal digits of `n`, with a leading zero where there would be only
/// one digit.
pub open spec fn two_digit_text(n: nat) -> Seq<char> {
    if n < 10 {
        seq!['0', digit_char(n)]
    } else {
        decimal_text(n)
    }
}

/// A number of seconds as hours, minutes and seconds, `HH:MM:SS`. Hours
/// above 99 take as many digits as they need.
pub open spec fn time_text(seconds: nat) -> Seq<char> {
    two_digit_text(seconds / 3600) + seq![':'] + two_digit_text(seconds % 3600 / 60) + seq![':']
        + two_digit_text(seconds % 60)
}

/// Up to 99 hours a clock text has exactly eight characters.
pub proof fn lemma_time_text_len(seconds: nat)
    requires
        seconds < 360000,
    ensures
        time_text(seconds).len() == 8,
{
    let h = seconds / 3600;
    let m = seconds % 3600 / 60;
    let s = seconds % 60;
    assert(h < 100 && m < 60 && s < 60);
    reveal_with_fuel(decimal_text, 2);
    assert(two_digit_text(h).len() == 2);
    assert(two_digit_text(m).len() == 2);
    assert(two_digit_text(s).len() == 2);
}

fn digit_str(d: u32) -> (s: &'static str)
    requires
        d < 10,
    ensures
        s@ == seq![digit_char(d as nat)],
{
    proof {
        reveal_strlit("0");
        reveal_strlit("1");
        reveal_strlit("2");
        reveal_strlit("3");
        reveal_strlit("4");
        reveal_strlit("5");
        reveal_strlit("6");
        reveal_strlit("7");
        reveal_strlit("8");
        reveal_strlit("9");
    }
    let s = if d == 0 {
        "0"
    } else if d == 1 {
        "1"
    } else if d == 2 {
        "2"
    } else if d == 3 {
        "3"
    } else if d == 4 {
        "4"
    } else if d == 5 {
        "5"
    } else if d == 6 {
        "6"
    } else if d == 7 {
        "7"
    } else if d == 8 {
        "8"
    } else {
        "9"
    };
    assert(s@ =~= seq![digit_char(d as nat)]);
    s
}

/// Appends the decimal digits of `n` to `text`.
pub fn push_decimal(text: &mut String, n: u32)
    ensures
        final(text)@ == old(text)@ + decimal_text(n as nat),
    decreases n,
{
    if n >= 10 {
        push_decimal(text, n / 10);
    }
    text.append(digit_str(n % 10));
    assert(text@ =~= old(text)@ + decimal_text(n as nat));
}

/// Appends `n` in at least two digits to `text`.
pub fn push_two_digits(text: &mut String, n: u32)
    ensures
        final(text)@ == old(text)@ + two_digit_text(n as nat),
{
    if n < 10 {
        text.append(digit_str(0));
    }
    push_decimal(text, n);
    assert(text@ =~= old(text)@ + two_digit_text(n as nat));
}

/// The decimal digits of `n` as a string.
pub fn get_decimal_text(n: u32) -> (text: String)
    ensures
        text@ == decimal_text(n as nat),
{
    let mut text = String::new();
    push_decimal(&mut text, n);
    assert(text@ =~= decimal_text(n as nat));
    text
}

/// A number of seconds as `HH:MM:SS`.
pub fn get_time_text(time: u32) -> (text: String)
    ensures
        text@ == time_text(time as nat),
{
    let hours: u32 = time / 60 / 60;
    let rest: u32 = time - hours * 60 * 60;
    let minutes: u32 = rest / 60;
    let seconds: u32 = rest - minutes * 60;
    assert(hours == time as nat / 3600 && minutes == time as nat % 3600 / 60 && seconds == time
        as nat % 60);
    proof {
        reveal_strlit(":");
        assert(":"@ =~= seq![':']);
    }
    let mut text = String::new();
    push_two_digits(&mut text, hours);
    text.append(":");
    push_two_digits(&mut text, minutes);
    text.append(":");
    push_two_digits(&mut text, seconds);
    assert(text@ =~= time_text(time as nat));
    text
}

} // verus!
