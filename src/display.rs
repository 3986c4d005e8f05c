use vstd::prelude::*;
use vstd::string::StringExecFns;

verus! {

/// One second, in milliseconds.
pub const SECOND_MS: i128 = 1000;

/// One minute, in milliseconds.
pub const MINUTE_MS: i128 = 60_000;

/// The character of a decimal digit.
pub open spec fn digit_char(d: nat) -> char {
    if d == 0 { '0' }
    else if d == 1 { '1' }
    else if d == 2 { '2' }
    else if d == 3 { '3' }
    else if d == 4 { '4' }
    else if d == 5 { '5' }
    else if d == 6 { '6' }
    else if d == 7 { '7' }
    else if d == 8 { '8' }
    else { '9' }
}

/// The decimal digits of `n`, most significant first, without leading zeros.
pub open spec fn decimal(n: nat) -> Seq<char>
    decreases n,
{
    if n < 10 {
        seq![digit_char(n)]
    } else {
        decimal(n / 10) + seq![digit_char(n % 10)]
    }
}

/// Whole minutes, rounded up, in `ms` milliseconds.
pub open spec fn minutes_up(ms: int) -> int {
    if ms % (MINUTE_MS as int) == 0 {
        ms / (MINUTE_MS as int)
    } else {
        ms / (MINUTE_MS as int) + 1
    }
}

/// The text shown for `remaining` milliseconds: whole minutes rounded up
/// above one minute, whole seconds rounded down above zero, and a fixed
/// message once the time has run out.
pub open spec fn display_of(remaining: int) -> Seq<char> {
    if remaining > MINUTE_MS as int {
        decimal(minutes_up(remaining) as nat) + " Minutes left in round"@
    } else if remaining > 0 {
        decimal((remaining / (SECOND_MS as int)) as nat) + " Seconds left in round"@
    } else {
        "Time is up!"@
    }
}

fn digit_str(d: u128) -> (r: &'static str)
    requires
        d < 10,
    ensures
        r@ == seq![digit_char(d as nat)],
{
    proof {
        reveal_strlit("0");
        reveal_strlit("1");
        reveal_strlit("2");
        reveal_strlit("3");
        reveal_strlit("4");
        reveal_strlit("5");
        reveal_strlit("6");
        reveal_strlit("7");
        reveal_strlit("8");
        reveal_strlit("9");
    }
    match d {
        0 => "0",
        1 => "1",
        2 => "2",
        3 => "3",
        4 => "4",
        5 => "5",
        6 => "6",
        7 => "7",
        8 => "8",
        _ => "9",
    }
}

/// Appends the decimal digits of `n` to `s`.
fn push_decimal(s: &mut String, n: u128)
    ensures
        final(s)@ == old(s)@ + decimal(n as nat),
    decreases n,
{
    if n >= 10 {
        push_decimal(s, n / 10);
    }
    s.append(digit_str(n % 10));
    proof {
        assert(final(s)@ =~= old(s)@ + decimal(n as nat));
    }
}

/// The text for `remaining_time` milliseconds left in the current phase:
/// "N Minutes left in round" above one minute (N rounded up), "N Seconds left
/// in round" above zero (N rounded down), and "Time is up!" otherwise.
pub fn display_time_remaining(remaining_time: i128) -> (r: String)
    ensures
        r@ == display_of(remaining_time as int),
{
    let mut s = String::new();
    if remaining_time > MINUTE_MS {
        let whole = remaining_time / MINUTE_MS;
        let minutes: u128 = if remaining_time % MINUTE_MS == 0 {
            whole as u128
        } else {
            whole as u128 + 1
        };
        push_decimal(&mut s, minutes);
        s.append(" Minutes left in round");
    } else if remaining_time > 0 {
        push_decimal(&mut s, (remaining_time / SECOND_MS) as u128);
        s.append(" Seconds left in round");
    } else {
        s.append("Time is up!");
    }
    s
}

} // verus!
