//! Verified text rendering for the log line: decimal numbers and the elapsed
//! time, printed the way `Duration`'s `Debug` renders under a `.3` precision:
//! the unit that fits is chosen first (seconds, milliseconds, microseconds or
//! nanoseconds), then exactly three fractional digits follow, rounded
//! half-to-even, with a carry into the integer part where the fraction rounds
//! to one whole unit.

use vstd::prelude::*;
use vstd::string::StringExecFns;

verus! {

/// The decimal digit character for `d % 10`.
pub open spec fn digit_char(d: nat) -> char {
    if d % 10 == 0 {
        '0'
    } else if d % 10 == 1 {
        '1'
    } else if d % 10 == 2 {
        '2'
    } else if d % 10 == 3 {
        '3'
    } else if d % 10 == 4 {
        '4'
    } else if d % 10 == 5 {
        '5'
    } else if d % 10 == 6 {
        '6'
    } else if d % 10 == 7 {
        '7'
    } else if d % 10 == 8 {
        '8'
    } else {
        '9'
    }
}

/// The usual decimal rendering of `n`, without leading zeros (except for the
/// single digit of zero itself).
pub open spec fn dec_of(n: nat) -> Seq<char>
    decreases n,
{
    if n < 10 {
        seq![digit_char(n)]
    } else {
        dec_of(n / 10) + seq![digit_char(n % 10)]
    }
}

/// Three zero-padded digits: the fractional part `n` of a unit, `n < 1000`.
pub open spec fn frac3_of(n: nat) -> Seq<char> {
    seq![digit_char(n / 100), digit_char(n / 10), digit_char(n)]
}

/// `sub / unit` rounded to the nearest integer, a tie going to the even
/// neighbour: the rounding `Duration`'s `Debug` applies to its fractional
/// digits.
pub open spec fn round_half_even(sub: nat, unit: nat) -> nat {
    let q = sub / unit;
    let r = sub % unit;
    if 2 * r > unit || (2 * r == unit && q % 2 == 1) {
        q + 1
    } else {
        q
    }
}

/// An elapsed time of `ns` nanoseconds, rendered in the largest unit it
/// reaches with exactly three fractional digits, rounded half-to-even; a
/// fraction that rounds to a whole unit carries into the integer part. The
/// unit is chosen before rounding, so one unit's rendering may reach
/// `1000.000` of it. In the microsecond and nanosecond units the three
/// digits are exact, so no rounding can occur there.
pub open spec fn elapsed_fmt(ns: nat) -> Seq<char> {
    if ns >= 1_000_000_000 {
        let whole = ns / 1_000_000_000;
        let f = round_half_even(ns % 1_000_000_000, 1_000_000);
        if f == 1000 {
            dec_of(whole + 1) + ".000s"@
        } else {
            dec_of(whole) + "."@ + frac3_of(f) + "s"@
        }
    } else if ns >= 1_000_000 {
        let whole = ns / 1_000_000;
        let f = round_half_even(ns % 1_000_000, 1_000);
        if f == 1000 {
            dec_of(whole + 1) + ".000ms"@
        } else {
            dec_of(whole) + "."@ + frac3_of(f) + "ms"@
        }
    } else if ns >= 1_000 {
        dec_of(ns / 1_000) + "."@ + frac3_of(ns % 1_000) + "\u{00B5}s"@
    } else {
        dec_of(ns) + ".000ns"@
    }
}

/// Computes [`round_half_even`] for a sub-unit remainder.
fn rounded_fraction(sub: u64, unit: u64) -> (f: u64)
    requires
        sub < 1_000_000_000,
        0 < unit <= 1_000_000,
    ensures
        f == round_half_even(sub as nat, unit as nat),
{
    let q = sub / unit;
    let r = sub % unit;
    if 2 * r > unit || (2 * r == unit && q % 2 == 1) {
        q + 1
    } else {
        q
    }
}

/// The one-character string for digit `d`.
fn digit_str(d: u64) -> (r: &'static str)
    requires
        d < 10,
    ensures
        r@ == seq![digit_char(d as nat)],
{
    let r = if d == 0 {
        "0"
    } else if d == 1 {
        "1"
    } else if d == 2 {
        "2"
    } else if d == 3 {
        "3"
    } else if d == 4 {
        "4"
    } else if d == 5 {
        "5"
    } else if d == 6 {
        "6"
    } else if d == 7 {
        "7"
    } else if d == 8 {
        "8"
    } else {
        "9"
    };
    proof {
        reveal_strlit("0");
        reveal_strlit("1");
        reveal_strlit("2");
        reveal_strlit("3");
        reveal_strlit("4");
        reveal_strlit("5");
        reveal_strlit("6");
        reveal_strlit("7");
        reveal_strlit("8");
        reveal_strlit("9");
        assert(r@ =~= seq![digit_char(d as nat)]);
    }
    r
}

/// Appends the decimal rendering of `n` to `out`.
pub fn push_decimal(n: u64, out: &mut String)
    ensures
        final(out)@ == old(out)@ + dec_of(n as nat),
    decreases n,
{
    if n >= 10 {
        push_decimal(n / 10, out);
    }
    out.append(digit_str(n % 10));
    proof {
        assert(out@ =~= old(out)@ + dec_of(n as nat));
    }
}

/// The decimal rendering of `n` as an owned string.
pub fn decimal_string(n: u64) -> (r: String)
    ensures
        r@ == dec_of(n as nat),
{
    let mut out = String::new();
    push_decimal(n, &mut out);
    proof {
        assert(out@ =~= dec_of(n as nat));
    }
    out
}

/// Appends the three zero-padded fractional digits of `n < 1000`.
fn push_frac3(n: u64, out: &mut String)
    requires
        n < 1000,
    ensures
        final(out)@ == old(out)@ + frac3_of(n as nat),
{
    out.append(digit_str(n / 100));
    out.append(digit_str((n / 10) % 10));
    out.append(digit_str(n % 10));
    proof {
        assert(out@ =~= old(out)@ + frac3_of(n as nat));
    }
}

/// Appends the rendering of an elapsed time of `ns` nanoseconds.
pub fn push_elapsed(ns: u64, out: &mut String)
    ensures
        final(out)@ == old(out)@ + elapsed_fmt(ns as nat),
{
    if ns >= 1_000_000_000 {
        let whole = ns / 1_000_000_000;
        let f = rounded_fraction(ns % 1_000_000_000, 1_000_000);
        if f == 1000 {
            push_decimal(whole + 1, out);
            out.append(".000s");
        } else {
            push_decimal(whole, out);
            out.append(".");
            push_frac3(f, out);
            out.append("s");
        }
    } else if ns >= 1_000_000 {
        let whole = ns / 1_000_000;
        let f = rounded_fraction(ns % 1_000_000, 1_000);
        if f == 1000 {
            push_decimal(whole + 1, out);
            out.append(".000ms");
        } else {
            push_decimal(whole, out);
            out.append(".");
            push_frac3(f, out);
            out.append("ms");
        }
    } else if ns >= 1_000 {
        push_decimal(ns / 1_000, out);
        out.append(".");
        push_frac3(ns % 1_000, out);
        out.append("\u{00B5}s");
    } else {
        push_decimal(ns, out);
        out.append(".000ns");
    }
    proof {
        assert(out@ =~= old(out)@ + elapsed_fmt(ns as nat));
    }
}

/// The rendering of an elapsed time of `ns` nanoseconds, as an owned string.
pub fn format_elapsed(ns: u64) -> (r: String)
    ensures
        r@ == elapsed_fmt(ns as nat),
{
    let mut out = String::new();
    push_elapsed(ns, &mut out);
    proof {
        assert(out@ =~= elapsed_fmt(ns as nat));
    }
    out
}

} // verus!
