use vstd::prelude::*;
use vstd::string::StringExecFns;

verus! {

/// Centiseconds in a day.
pub const CENTIS_PER_DAY: u64 = 8640000;

/// Centiseconds in an hour.
pub const CENTIS_PER_HOUR: u64 = 360000;

/// Centiseconds in a minute.
pub const CENTIS_PER_MINUTE: u64 = 6000;

/// Centiseconds in a second.
pub const CENTIS_PER_SECOND: u64 = 100;

/// The decimal digit `d` as a character.
pub open spec fn digit(d: int) -> char {
    seq!['0', '1', '2', '3', '4', '5', '6', '7', '8', '9'][d]
}

/// `n` written with two decimal digits, zero padded; `n` is below 100.
pub open spec fn two_digits(n: int) -> Seq<char> {
    seq![digit(n / 10), digit(n % 10)]
}

/// The wall-clock hour of a time given in centiseconds since midnight.
pub open spec fn hours_of(c: nat) -> int {
    (c % CENTIS_PER_DAY as nat) as int / CENTIS_PER_HOUR as int
}

/// The minute within the hour.
pub open spec fn minutes_of(c: nat) -> int {
    (c % CENTIS_PER_HOUR as nat) as int / CENTIS_PER_MINUTE as int
}

/// The second within the minute.
pub open spec fn seconds_of(c: nat) -> int {
    (c % CENTIS_PER_MINUTE as nat) as int / CENTIS_PER_SECOND as int
}

/// The hundredth of a second within the second.
pub open spec fn centis_of(c: nat) -> int {
    (c % CENTIS_PER_SECOND as nat) as int
}

/// `HH:MM:SS.CC` for a time given in centiseconds since midnight; times of a
/// day or more wrap around.
pub open spec fn clock_text(c: nat) -> Seq<char> {
    two_digits(hours_of(c)) + seq![':'] + two_digits(minutes_of(c)) + seq![':']
        + two_digits(seconds_of(c)) + seq!['.'] + two_digits(centis_of(c))
}

/// The one-character string of the digit `d`.
fn digit_str(d: u64) -> (r: &'static str)
    requires
        d < 10,
    ensures
        r@ == seq![digit(d as int)],
{
    proof {
        reveal_strlit("0");
        reveal_strlit("1");
        reveal_strlit("2");
        reveal_strlit("3");
        reveal_strlit("4");
        reveal_strlit("5");
        reveal_strlit("6");
        reveal_strlit("7");
        reveal_strlit("8");
        reveal_strlit("9");
    }
    match d {
        0 => "0",
        1 => "1",
        2 => "2",
        3 => "3",
        4 => "4",
        5 => "5",
        6 => "6",
        7 => "7",
        8 => "8",
        _ => "9",
    }
}

/// Appends `n` as two zero-padded digits.
fn push_two_digits(s: &mut String, n: u64)
    requires
        n < 100,
    ensures
        final(s)@ == old(s)@ + two_digits(n as int),
{
    s.append(digit_str(n / 10));
    s.append(digit_str(n % 10));
    assert(final(s)@ =~= old(s)@ + two_digits(n as int));
}

/// Formats a time of day, given in centiseconds since midnight, as
/// `HH:MM:SS.CC`; a time of a day or more wraps around.
pub fn format_clock(centis: u64) -> (r: String)
    ensures
        r@ == clock_text(centis as nat),
{
    let hours = centis % CENTIS_PER_DAY / CENTIS_PER_HOUR;
    let minutes = centis % CENTIS_PER_HOUR / CENTIS_PER_MINUTE;
    let seconds = centis % CENTIS_PER_MINUTE / CENTIS_PER_SECOND;
    let hundredths = centis % CENTIS_PER_SECOND;
    let mut s = String::new();
    push_two_digits(&mut s, hours);
    proof { reveal_strlit(":"); reveal_strlit("."); }
    s.append(":");
    push_two_digits(&mut s, minutes);
    s.append(":");
    push_two_digits(&mut s, seconds);
    s.append(".");
    push_two_digits(&mut s, hundredths);
    assert(s@ =~= clock_text(centis as nat));
    s
}

} // verus!
