//! The texts written along the time axis.

use vstd::prelude::*;
use vstd::string::*;

use crate::WINDOW_SIZE;

verus! {

/// The character of a decimal digit.
pub open spec fn digit(d: nat) -> char
    recommends
        d < 10,
{
    seq!['0', '1', '2', '3', '4', '5', '6', '7', '8', '9'][d as int]
}

/// The decimal digits of `n`, most significant first, without leading zeros.
pub open spec fn decimal(n: nat) -> Seq<char>
    decreases n,
{
    if n < 10 {
        seq![digit(n)]
    } else {
        decimal(n / 10).push(digit(n % 10))
    }
}

/// `text`, with as many `fill` characters put before it as it lacks to
/// `width` characters.
pub open spec fn pad_left(text: Seq<char>, width: nat, fill: char) -> Seq<char> {
    if text.len() >= width {
        text
    } else {
        Seq::new((width - text.len()) as nat, |i: int| fill) + text
    }
}

/// Whole minutes of the running half hour, when the clock's right edge is at `end`.
pub open spec fn elapsed_minutes(end: nat) -> nat {
    (end % (WINDOW_SIZE as nat)) / 60
}

/// Seconds of the running minute, when the clock's right edge is at `end`.
pub open spec fn elapsed_seconds(end: nat) -> nat {
    end % 60
}

/// The elapsed time as it is shown: the minutes, padded with a zero to two
/// digits, a colon, and the seconds as they are.
pub open spec fn elapsed_text(end: nat) -> Seq<char> {
    pad_left(decimal(elapsed_minutes(end)), 2, '0') + seq![':'] + decimal(elapsed_seconds(end))
}

/// A number below one hundred has one digit if it is below ten, else two.
pub proof fn lemma_decimal_len(n: nat)
    requires
        n < 100,
    ensures
        decimal(n).len() == if n < 10 { 1nat } else { 2nat },
{
    reveal_with_fuel(decimal, 2);
}

/// The minutes always take two characters and the colon comes third; the
/// seconds take one character below ten and two from ten on.
pub proof fn lemma_elapsed_text_len(end: nat)
    ensures
        elapsed_text(end).len() == if elapsed_seconds(end) < 10 { 4nat } else { 5nat },
        elapsed_text(end)[2] == ':',
{
    lemma_decimal_len(elapsed_minutes(end));
    lemma_decimal_len(elapsed_seconds(end));
}

fn digit_str(d: u64) -> (text: &'static str)
    requires
        d < 10,
    ensures
        text@ == seq![digit(d as nat)],
{
    let text = if d == 0 {
        "0"
    } else if d == 1 {
        "1"
    } else if d == 2 {
        "2"
    } else if d == 3 {
        "3"
    } else if d == 4 {
        "4"
    } else if d == 5 {
        "5"
    } else if d == 6 {
        "6"
    } else if d == 7 {
        "7"
    } else if d == 8 {
        "8"
    } else {
        "9"
    };
    proof {
        reveal_strlit("0");
        reveal_strlit("1");
        reveal_strlit("2");
        reveal_strlit("3");
        reveal_strlit("4");
        reveal_strlit("5");
        reveal_strlit("6");
        reveal_strlit("7");
        reveal_strlit("8");
        reveal_strlit("9");
        assert(text@ =~= seq![digit(d as nat)]);
    }
    text
}

/// Writes `n` in decimal.
pub fn decimal_string(n: u64) -> (text: String)
    ensures
        text@ == decimal(n as nat),
    decreases n,
{
    if n < 10 {
        String::from_str(digit_str(n))
    } else {
        let mut text = decimal_string(n / 10);
        text.append(digit_str(n % 10));
        text
    }
}

/// Writes the elapsed time for a clock whose right edge is at `end`.
pub fn elapsed_label(end: u64) -> (label: String)
    ensures
        label@ == elapsed_text(end as nat),
{
    let minutes: u64 = (end % (WINDOW_SIZE as u64)) / 60;
    let seconds: u64 = end % 60;
    let mut label = if minutes < 10 {
        String::from_str("0")
    } else {
        String::new()
    };
    label.append(decimal_string(minutes).as_str());
    label.append(":");
    label.append(decimal_string(seconds).as_str());
    proof {
        reveal_strlit("0");
        reveal_strlit(":");
        lemma_decimal_len(minutes as nat);
        assert(label@ =~= elapsed_text(end as nat));
    }
    label
}

} // verus!
