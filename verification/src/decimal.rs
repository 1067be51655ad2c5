//! Decimal text of values held in millionths: the shortest plain decimal
//! notation (no exponent, no trailing zeros), and a two-decimal notation.

use vstd::prelude::*;

verus! {

/// The character of a decimal digit.
pub open spec fn digit_char(d: int) -> char {
    (48 + d) as char
}

/// Decimal digits of `n`, most significant first, without leading zeros ("0" for zero).
pub open spec fn digits(n: nat) -> Seq<char>
    decreases n,
{
    if n < 10 {
        seq![digit_char(n as int)]
    } else {
        digits(n / 10).push(digit_char((n % 10) as int))
    }
}

/// Exactly `k` decimal digits of `n` (with leading zeros), least significant `k` digits.
pub open spec fn padded_digits(n: nat, k: nat) -> Seq<char>
    decreases k,
{
    if k == 0 {
        Seq::empty()
    } else {
        padded_digits(n / 10, (k - 1) as nat).push(digit_char((n % 10) as int))
    }
}

/// `s` without its trailing '0' characters.
pub open spec fn strip_trailing_zeros(s: Seq<char>) -> Seq<char>
    decreases s.len(),
{
    if s.len() > 0 && s.last() == '0' {
        strip_trailing_zeros(s.drop_last())
    } else {
        s
    }
}

/// Shortest plain decimal text of `m` millionths: an optional minus sign, the
/// integer part, and, when the fractional part is not zero, a point followed
/// by the fractional digits without trailing zeros.
pub open spec fn decimal_text(m: int) -> Seq<char> {
    let a: nat = if m < 0 {
        (-m) as nat
    } else {
        m as nat
    };
    let sign = if m < 0 {
        "-"@
    } else {
        Seq::<char>::empty()
    };
    let whole = a / 1_000_000;
    let frac = a % 1_000_000;
    sign + digits(whole) + if frac == 0 {
        Seq::<char>::empty()
    } else {
        seq!['.'] + strip_trailing_zeros(padded_digits(frac, 6))
    }
}

/// `a` millionths rounded to the nearest hundredth, ties to even (as Rust's
/// `{:.2}` rounds an exact decimal value).
pub open spec fn hundredths(a: nat) -> nat {
    let q = a / 10_000;
    let r = a % 10_000;
    if r > 5_000 || (r == 5_000 && q % 2 == 1) {
        q + 1
    } else {
        q
    }
}

/// Text of `m` millionths with exactly two decimals: the magnitude rounded to
/// the nearest hundredth, ties to even, and a minus sign whenever `m` is
/// negative (so a small negative value reads "-0.00").
pub open spec fn two_decimals_text(m: int) -> Seq<char> {
    let a: nat = if m < 0 {
        (-m) as nat
    } else {
        m as nat
    };
    let h = hundredths(a);
    let sign = if m < 0 {
        "-"@
    } else {
        Seq::<char>::empty()
    };
    sign + digits(h / 100) + seq!['.'] + padded_digits(h % 100, 2)
}

/// The one-character text of a decimal digit.
fn digit_text(d: u64) -> (s: &'static str)
    requires
        d < 10,
    ensures
        s@ == seq![digit_char(d as int)],
{
    proof {
        reveal_strlit("0");
        reveal_strlit("1");
        reveal_strlit("2");
        reveal_strlit("3");
        reveal_strlit("4");
        reveal_strlit("5");
        reveal_strlit("6");
        reveal_strlit("7");
        reveal_strlit("8");
        reveal_strlit("9");
    }
    if d == 0 {
        assert("0"@ =~= seq!['0']);
        "0"
    } else if d == 1 {
        assert("1"@ =~= seq!['1']);
        "1"
    } else if d == 2 {
        assert("2"@ =~= seq!['2']);
        "2"
    } else if d == 3 {
        assert("3"@ =~= seq!['3']);
        "3"
    } else if d == 4 {
        assert("4"@ =~= seq!['4']);
        "4"
    } else if d == 5 {
        assert("5"@ =~= seq!['5']);
        "5"
    } else if d == 6 {
        assert("6"@ =~= seq!['6']);
        "6"
    } else if d == 7 {
        assert("7"@ =~= seq!['7']);
        "7"
    } else if d == 8 {
        assert("8"@ =~= seq!['8']);
        "8"
    } else {
        assert("9"@ =~= seq!['9']);
        "9"
    }
}

/// Append the decimal digits of `n`.
pub fn push_digits(s: &mut String, n: u64)
    ensures
        final(s)@ == old(s)@ + digits(n as nat),
    decreases n,
{
    if n >= 10 {
        push_digits(s, n / 10);
    }
    s.append(digit_text(n % 10));
    proof {
        if n >= 10 {
            assert(final(s)@ =~= old(s)@ + digits(n as nat));
        } else {
            assert(final(s)@ =~= old(s)@ + digits(n as nat));
        }
    }
}

/// Append exactly `k` digits of `n`, with leading zeros.
fn push_padded_digits(s: &mut String, n: u64, k: u64)
    ensures
        final(s)@ == old(s)@ + padded_digits(n as nat, k as nat),
    decreases k,
{
    if k > 0 {
        push_padded_digits(s, n / 10, k - 1);
        s.append(digit_text(n % 10));
        assert(final(s)@ =~= old(s)@ + padded_digits(n as nat, k as nat));
    } else {
        assert(final(s)@ =~= old(s)@ + padded_digits(n as nat, k as nat));
    }
}

/// The fractional digits of `f` (six digits) without trailing zeros.
fn fraction_text(f: u64) -> (s: String)
    requires
        0 < f < 1_000_000,
    ensures
        s@ == strip_trailing_zeros(padded_digits(f as nat, 6)),
{
    let mut g = f;
    let mut k: u64 = 6;
    assert(pow10(6) == 1_000_000) by {
        reveal_with_fuel(pow10, 7);
    }
    while g % 10 == 0
        invariant
            0 < g,
            k <= 6,
            strip_trailing_zeros(padded_digits(f as nat, 6)) == strip_trailing_zeros(
                padded_digits(g as nat, k as nat),
            ),
            g < pow10(k as nat),
        decreases k,
    {
        proof {
            lemma_strip_one(g as nat, k as nat);
        }
        g = g / 10;
        k = k - 1;
    }
    let mut s = String::new();
    push_padded_digits(&mut s, g, k);
    proof {
        lemma_no_trailing_zero(g as nat, k as nat);
    }
    assert(s@ =~= padded_digits(g as nat, k as nat));
    s
}

/// 10 to the power `k`.
pub open spec fn pow10(k: nat) -> nat
    decreases k,
{
    if k == 0 {
        1
    } else {
        10 * pow10((k - 1) as nat)
    }
}

proof fn lemma_strip_one(g: nat, k: nat)
    requires
        0 < g,
        g % 10 == 0,
        g < pow10(k),
    ensures
        k > 0,
        strip_trailing_zeros(padded_digits(g, k)) == strip_trailing_zeros(
            padded_digits(g / 10, (k - 1) as nat),
        ),
        g / 10 > 0,
        g / 10 < pow10((k - 1) as nat),
{
    if k == 0 {
        assert(false);
    }
    let p = padded_digits(g, k);
    assert(p.last() == '0');
    assert(p.drop_last() =~= padded_digits(g / 10, (k - 1) as nat));
}

proof fn lemma_no_trailing_zero(g: nat, k: nat)
    requires
        g % 10 != 0,
    ensures
        strip_trailing_zeros(padded_digits(g, k)) == padded_digits(g, k),
{
    if k > 0 {
        assert(padded_digits(g, k).last() == digit_char((g % 10) as int));
    }
}

/// Shortest plain decimal text of a value given in millionths (for example
/// 168_000_000 gives "168" and 870_000 gives "0.87").
pub fn decimal_text_of(m: i64) -> (s: String)
    ensures
        s@ == decimal_text(m as int),
{
    let mut s = String::new();
    let a: u64 = if m < 0 {
        s.append("-");
        proof {
            reveal_strlit("-");
        }
        if m == i64::MIN {
            9_223_372_036_854_775_808u64
        } else {
            (-m) as u64
        }
    } else {
        m as u64
    };
    let whole = a / 1_000_000;
    let frac = a % 1_000_000;
    push_digits(&mut s, whole);
    if frac != 0 {
        s.append(".");
        proof {
            reveal_strlit(".");
            assert("."@ =~= seq!['.']);
        }
        let t = fraction_text(frac);
        s.append(t.as_str());
    }
    assert(s@ =~= decimal_text(m as int));
    s
}

/// Shortest plain decimal text of a non-negative value given in millionths
/// (for example 168_000_000 gives "168").
pub fn unsigned_decimal_text(m: u64) -> (s: String)
    ensures
        s@ == decimal_text(m as int),
{
    let mut s = String::new();
    let whole = m / 1_000_000;
    let frac = m % 1_000_000;
    push_digits(&mut s, whole);
    if frac != 0 {
        s.append(".");
        proof {
            reveal_strlit(".");
            assert("."@ =~= seq!['.']);
        }
        let t = fraction_text(frac);
        s.append(t.as_str());
    }
    assert(s@ =~= decimal_text(m as int));
    s
}

/// Text of a value given in millionths with exactly two decimals, rounded to
/// the nearest hundredth with ties to even, keeping the sign (for example
/// 850_000 gives "0.85", 125_000 gives "0.12" and -1_000 gives "-0.00").
pub fn two_decimals_text_of(m: i64) -> (s: String)
    ensures
        s@ == two_decimals_text(m as int),
{
    let mut s = String::new();
    let neg = m < 0;
    let a: u64 = if neg {
        if m == i64::MIN {
            9_223_372_036_854_775_808u64
        } else {
            (-m) as u64
        }
    } else {
        m as u64
    };
    let q = a / 10_000;
    let r = a % 10_000;
    let h: u64 = if r > 5_000 || (r == 5_000 && q % 2 == 1) {
        q + 1
    } else {
        q
    };
    assert(h == hundredths(a as nat));
    if neg {
        s.append("-");
        proof {
            reveal_strlit("-");
        }
    }
    push_digits(&mut s, h / 100);
    s.append(".");
    proof {
        reveal_strlit(".");
        assert("."@ =~= seq!['.']);
    }
    push_padded_digits(&mut s, h % 100, 2);
    assert(s@ =~= two_decimals_text(m as int));
    s
}

} // verus!
