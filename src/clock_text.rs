use vstd::prelude::*;

verus! {

/// Milliseconds in one second.
pub const MILLIS_PER_SECOND: u64 = 1000;

/// Milliseconds in one minute.
pub const MILLIS_PER_MINUTE: u64 = 60000;

/// The decimal digit character for `d`, for `d < 10`.
pub open spec fn digit_char(d: nat) -> char {
    seq!['0', '1', '2', '3', '4', '5', '6', '7', '8', '9'][d as int]
}

/// The decimal notation of `n`, without leading zeros.
pub open spec fn decimal(n: nat) -> Seq<char>
    decreases n,
{
    if n < 10 {
        seq![digit_char(n)]
    } else {
        decimal(n / 10) + seq![digit_char(n % 10)]
    }
}

/// Two decimal digits of `n`, zero-padded, for `n < 100`.
pub open spec fn two_digits(n: nat) -> Seq<char> {
    seq![digit_char(n / 10), digit_char(n % 10)]
}

/// A span of `ms` milliseconds as `minutes:seconds`, whole seconds only,
/// the seconds padded to two digits: `24:59`, `0:05`, `125:00`.
pub open spec fn clock_text(ms: nat) -> Seq<char> {
    decimal(ms / MILLIS_PER_MINUTE as nat) + seq![':'] + two_digits(
        (ms % MILLIS_PER_MINUTE as nat) / MILLIS_PER_SECOND as nat,
    )
}

fn digit_text(d: u64) -> (r: &'static str)
    requires
        d < 10,
    ensures
        r@ == seq![digit_char(d as nat)],
{
    proof {
        reveal_strlit("0");
        reveal_strlit("1");
        reveal_strlit("2");
        reveal_strlit("3");
        reveal_strlit("4");
        reveal_strlit("5");
        reveal_strlit("6");
        reveal_strlit("7");
        reveal_strlit("8");
        reveal_strlit("9");
    }
    let r = match d {
        0 => "0",
        1 => "1",
        2 => "2",
        3 => "3",
        4 => "4",
        5 => "5",
        6 => "6",
        7 => "7",
        8 => "8",
        _ => "9",
    };
    assert(r@ =~= seq![digit_char(d as nat)]);
    r
}

fn push_decimal(out: &mut String, n: u64)
    ensures
        final(out)@ == old(out)@ + decimal(n as nat),
    decreases n,
{
    if n >= 10 {
        push_decimal(out, n / 10);
    }
    out.append(digit_text(n % 10));
    assert(out@ =~= old(out)@ + decimal(n as nat));
}

/// Renders `ms` milliseconds as `minutes:seconds`.
pub fn format_clock(ms: u64) -> (r: String)
    ensures
        r@ == clock_text(ms as nat),
{
    let mut out = String::new();
    push_decimal(&mut out, ms / MILLIS_PER_MINUTE);
    out.append(":");
    let secs = (ms % MILLIS_PER_MINUTE) / MILLIS_PER_SECOND;
    out.append(digit_text(secs / 10));
    out.append(digit_text(secs % 10));
    proof {
        reveal_strlit(":");
    }
    assert(out@ =~= clock_text(ms as nat));
    out
}

} // verus!
