//! Decimal rendering of fixed-point lengths.
//!
//! Lengths are stored in ten-thousandths of a point, so the compact
//! encoding's four-decimal form and the diagnostic natural form are both
//! exact decimal renderings of an integer. The spec functions here define
//! those renderings as character sequences; the exec functions build them
//! into a `String` and are proved to match.

use vstd::prelude::*;

verus! {

/// The decimal digit character for `d`, where `0 <= d < 10`.
pub open spec fn digit_char(d: int) -> char {
    if d == 0 {
        '0'
    } else if d == 1 {
        '1'
    } else if d == 2 {
        '2'
    } else if d == 3 {
        '3'
    } else if d == 4 {
        '4'
    } else if d == 5 {
        '5'
    } else if d == 6 {
        '6'
    } else if d == 7 {
        '7'
    } else if d == 8 {
        '8'
    } else {
        '9'
    }
}

/// The decimal digits of `n`, most significant first, with no leading
/// zeros (a single `0` for zero).
pub open spec fn dec_digits(n: nat) -> Seq<char>
    decreases n,
{
    if n < 10 {
        seq![digit_char(n as int)]
    } else {
        dec_digits(n / 10) + seq![digit_char((n % 10) as int)]
    }
}

/// The last `width` decimal digits of `n`, zero-padded on the left.
pub open spec fn padded_digits(n: nat, width: nat) -> Seq<char>
    decreases width,
{
    if width == 0 {
        Seq::empty()
    } else {
        padded_digits(n / 10, (width - 1) as nat) + seq![digit_char((n % 10) as int)]
    }
}

/// The last `width` decimal digits of `n` with trailing zeros removed;
/// empty when they are all zero.
pub open spec fn trimmed_digits(n: nat, width: nat) -> Seq<char>
    decreases width,
{
    if width == 0 {
        Seq::empty()
    } else if n % 10 == 0 {
        trimmed_digits(n / 10, (width - 1) as nat)
    } else {
        padded_digits(n, width)
    }
}

/// A length in ten-thousandths of a point, rendered as points with
/// exactly four fractional digits (`35000` renders as `3.5000`).
pub open spec fn fixed_pt(units: int) -> Seq<char> {
    if units < 0 {
        seq!['-'] + fixed_pt_mag((-units) as nat)
    } else {
        fixed_pt_mag(units as nat)
    }
}

/// The four-decimal rendering of a non-negative count of units.
pub open spec fn fixed_pt_mag(n: nat) -> Seq<char> {
    dec_digits(n / 10000) + seq!['.'] + padded_digits(n % 10000, 4)
}

/// A length in ten-thousandths of a point, rendered as points in natural
/// form: no decimal point for a whole number of points, and no trailing
/// fractional zeros otherwise (`120000` renders as `12`, `35000` as `3.5`).
pub open spec fn natural_pt(units: int) -> Seq<char> {
    if units < 0 {
        seq!['-'] + natural_pt_mag((-units) as nat)
    } else {
        natural_pt_mag(units as nat)
    }
}

/// The natural rendering of a non-negative count of units.
pub open spec fn natural_pt_mag(n: nat) -> Seq<char> {
    if n % 10000 == 0 {
        dec_digits(n / 10000)
    } else {
        dec_digits(n / 10000) + seq!['.'] + trimmed_digits(n % 10000, 4)
    }
}

/// Append the single digit character for `d` to `out`.
fn push_digit(out: &mut String, d: u64)
    requires
        d < 10,
    ensures
        final(out)@ == old(out)@ + seq![digit_char(d as int)],
{
    if d == 0 {
        proof {
            reveal_strlit("0");
            assert("0"@ =~= seq![digit_char(d as int)]);
        }
        out.append("0");
    } else if d == 1 {
        proof {
            reveal_strlit("1");
            assert("1"@ =~= seq![digit_char(d as int)]);
        }
        out.append("1");
    } else if d == 2 {
        proof {
            reveal_strlit("2");
            assert("2"@ =~= seq![digit_char(d as int)]);
        }
        out.append("2");
    } else if d == 3 {
        proof {
            reveal_strlit("3");
            assert("3"@ =~= seq![digit_char(d as int)]);
        }
        out.append("3");
    } else if d == 4 {
        proof {
            reveal_strlit("4");
            assert("4"@ =~= seq![digit_char(d as int)]);
        }
        out.append("4");
    } else if d == 5 {
        proof {
            reveal_strlit("5");
            assert("5"@ =~= seq![digit_char(d as int)]);
        }
        out.append("5");
    } else if d == 6 {
        proof {
            reveal_strlit("6");
            assert("6"@ =~= seq![digit_char(d as int)]);
        }
        out.append("6");
    } else if d == 7 {
        proof {
            reveal_strlit("7");
            assert("7"@ =~= seq![digit_char(d as int)]);
        }
        out.append("7");
    } else if d == 8 {
        proof {
            reveal_strlit("8");
            assert("8"@ =~= seq![digit_char(d as int)]);
        }
        out.append("8");
    } else {
        proof {
            reveal_strlit("9");
            assert("9"@ =~= seq![digit_char(d as int)]);
        }
        out.append("9");
    }
}

/// Append the decimal digits of `n` to `out`.
pub(crate) fn push_dec(out: &mut String, n: u64)
    ensures
        final(out)@ == old(out)@ + dec_digits(n as nat),
    decreases n,
{
    if n >= 10 {
        push_dec(out, n / 10);
    }
    push_digit(out, n % 10);
}

/// Append the last `width` decimal digits of `n` to `out`, zero-padded.
pub(crate) fn push_padded(out: &mut String, n: u64, width: u64)
    ensures
        final(out)@ == old(out)@ + padded_digits(n as nat, width as nat),
    decreases width,
{
    if width > 0 {
        push_padded(out, n / 10, width - 1);
        push_digit(out, n % 10);
    }
}

/// Append the last `width` decimal digits of `n` to `out`, with trailing
/// zeros removed.
pub(crate) fn push_trimmed(out: &mut String, n: u64, width: u64)
    ensures
        final(out)@ == old(out)@ + trimmed_digits(n as nat, width as nat),
    decreases width,
{
    if width == 0 {
    } else if n % 10 == 0 {
        push_trimmed(out, n / 10, width - 1);
    } else {
        push_padded(out, n, width);
    }
}

/// The magnitude of a length as an unsigned count of units.
fn units_magnitude(units: i64) -> (r: u64)
    ensures
        units >= 0 ==> r == units as int,
        units < 0 ==> r == -(units as int),
{
    let wide: i128 = units as i128;
    if wide < 0 {
        (-wide) as u64
    } else {
        wide as u64
    }
}

/// Append the four-decimal point rendering of `units` to `out`.
pub(crate) fn push_fixed_pt(out: &mut String, units: i64)
    ensures
        final(out)@ == old(out)@ + fixed_pt(units as int),
{
    if units < 0 {
        proof {
            reveal_strlit("-");
            assert("-"@ =~= seq!['-']);
        }
        out.append("-");
    }
    let mag: u64 = units_magnitude(units);
    push_dec(out, mag / 10000);
    proof {
        reveal_strlit(".");
        assert("."@ =~= seq!['.']);
    }
    out.append(".");
    push_padded(out, mag % 10000, 4);
    proof {
        assert(out@ =~= old(out)@ + fixed_pt(units as int));
    }
}

/// Append the natural point rendering of `units` to `out`.
pub(crate) fn push_natural_pt(out: &mut String, units: i64)
    ensures
        final(out)@ == old(out)@ + natural_pt(units as int),
{
    if units < 0 {
        proof {
            reveal_strlit("-");
            assert("-"@ =~= seq!['-']);
        }
        out.append("-");
    }
    let mag: u64 = units_magnitude(units);
    push_dec(out, mag / 10000);
    if mag % 10000 != 0 {
        proof {
            reveal_strlit(".");
            assert("."@ =~= seq!['.']);
        }
        out.append(".");
        push_trimmed(out, mag % 10000, 4);
    }
    proof {
        assert(out@ =~= old(out)@ + natural_pt(units as int));
    }
}

} // verus!
