//! Decimal rendering of integers, as the textual forms of dates use it.
use vstd::prelude::*;

verus! {

/// The ASCII digit for `d` (taken modulo ten).
pub open spec fn digit_char(d: nat) -> char {
    ((d % 10) + 48) as char
}

/// The decimal digits of `n`, most significant first, without leading zeros.
pub open spec fn decimal(n: nat) -> Seq<char>
    decreases n,
{
    if n < 10 {
        seq![digit_char(n)]
    } else {
        decimal(n / 10) + seq![digit_char(n % 10)]
    }
}

/// `n` in decimal, with a leading `-` when it is negative.
pub open spec fn signed_decimal(n: int) -> Seq<char> {
    if n < 0 {
        seq!['-'] + decimal((-n) as nat)
    } else {
        decimal(n as nat)
    }
}

/// `n` in decimal, always with a leading sign (`+` for zero and above).
pub open spec fn explicit_sign_decimal(n: int) -> Seq<char> {
    if n < 0 {
        seq!['-'] + decimal((-n) as nat)
    } else {
        seq!['+'] + decimal(n as nat)
    }
}

/// The last `width` decimal digits of `n`, padded with leading zeros.
pub open spec fn padded_decimal(n: nat, width: nat) -> Seq<char>
    decreases width,
{
    if width == 0 {
        Seq::empty()
    } else {
        padded_decimal(n / 10, (width - 1) as nat) + seq![digit_char(n % 10)]
    }
}

/// The `width`-digit zero-padded form of `n`, with its trailing zeros dropped.
pub open spec fn trimmed_fraction(n: nat, width: nat) -> Seq<char>
    decreases width,
{
    if width > 0 && n % 10 == 0 {
        trimmed_fraction(n / 10, (width - 1) as nat)
    } else {
        padded_decimal(n, width)
    }
}

/// A string holding the single digit `d`.
fn digit_str(d: u64) -> (r: &'static str)
    requires
        d < 10,
    ensures
        r@ == seq![digit_char(d as nat)],
{
    proof {
        reveal_strlit("0");
        reveal_strlit("1");
        reveal_strlit("2");
        reveal_strlit("3");
        reveal_strlit("4");
        reveal_strlit("5");
        reveal_strlit("6");
        reveal_strlit("7");
        reveal_strlit("8");
        reveal_strlit("9");
    }
    let r = match d {
        0 => "0",
        1 => "1",
        2 => "2",
        3 => "3",
        4 => "4",
        5 => "5",
        6 => "6",
        7 => "7",
        8 => "8",
        _ => "9",
    };
    assert(r@ =~= seq![digit_char(d as nat)]);
    r
}

/// Appends the decimal digits of `n` to `out`.
pub fn push_decimal(out: &mut String, n: u64)
    ensures
        final(out)@ == old(out)@ + decimal(n as nat),
    decreases n,
{
    if n < 10 {
        out.append(digit_str(n));
    } else {
        push_decimal(out, n / 10);
        out.append(digit_str(n % 10));
        assert(final(out)@ =~= old(out)@ + decimal(n as nat));
    }
}

/// Appends the digits of `n` to `out`, preceded by `-` when it is negative.
pub fn push_signed_decimal(out: &mut String, n: i64)
    ensures
        final(out)@ == old(out)@ + signed_decimal(n as int),
{
    if n < 0 {
        proof {
            reveal_strlit("-");
        }
        out.append("-");
        let m: u64 = if n == i64::MIN {
            9_223_372_036_854_775_808u64
        } else {
            (-n) as u64
        };
        push_decimal(out, m);
        assert(final(out)@ =~= old(out)@ + signed_decimal(n as int));
    } else {
        push_decimal(out, n as u64);
    }
}

/// Appends the digits of `n` to `out`, preceded by `+` or `-`.
pub fn push_explicit_sign_decimal(out: &mut String, n: i64)
    ensures
        final(out)@ == old(out)@ + explicit_sign_decimal(n as int),
{
    if n < 0 {
        push_signed_decimal(out, n);
    } else {
        proof {
            reveal_strlit("+");
        }
        out.append("+");
        push_decimal(out, n as u64);
        assert(final(out)@ =~= old(out)@ + explicit_sign_decimal(n as int));
    }
}

/// Appends the last `width` digits of `n`, padded with leading zeros.
fn push_padded_decimal(out: &mut String, n: u64, width: u64)
    ensures
        final(out)@ == old(out)@ + padded_decimal(n as nat, width as nat),
    decreases width,
{
    if width > 0 {
        push_padded_decimal(out, n / 10, width - 1);
        out.append(digit_str(n % 10));
        assert(final(out)@ =~= old(out)@ + padded_decimal(n as nat, width as nat));
    } else {
        assert(final(out)@ =~= old(out)@ + padded_decimal(n as nat, width as nat));
    }
}

/// Appends the `width`-digit zero-padded form of `n` without its trailing zeros.
pub fn push_trimmed_fraction(out: &mut String, n: u64, width: u64)
    ensures
        final(out)@ == old(out)@ + trimmed_fraction(n as nat, width as nat),
{
    let mut f: u64 = n;
    let mut w: u64 = width;
    while w > 0 && f % 10 == 0
        invariant
            w <= width,
            trimmed_fraction(f as nat, w as nat) == trimmed_fraction(n as nat, width as nat),
        decreases w,
    {
        f = f / 10;
        w = w - 1;
    }
    push_padded_decimal(out, f, w);
}

} // verus!
