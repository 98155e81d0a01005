//! Decimal rendering of unsigned integers and fixed-point values.
use vstd::prelude::*;
use vstd::string::StringExecFns;

verus! {

/// The ASCII digit for `d` (taken modulo ten).
pub open spec fn digit_char(d: nat) -> char {
    let d = d % 10;
    if d == 0 {
        '0'
    } else if d == 1 {
        '1'
    } else if d == 2 {
        '2'
    } else if d == 3 {
        '3'
    } else if d == 4 {
        '4'
    } else if d == 5 {
        '5'
    } else if d == 6 {
        '6'
    } else if d == 7 {
        '7'
    } else if d == 8 {
        '8'
    } else {
        '9'
    }
}

/// The shortest base-ten rendering of `n`, without sign or leading zeros.
pub open spec fn decimal_text(n: nat) -> Seq<char>
    decreases n,
{
    if n < 10 {
        seq![digit_char(n)]
    } else {
        decimal_text(n / 10).push(digit_char(n % 10))
    }
}

/// `units / 10^places` written with exactly `places` digits after the point.
pub open spec fn fixed_text(units: nat, places: nat) -> Seq<char>
    decreases places,
{
    if places == 0 {
        decimal_text(units)
    } else {
        fixed_text_frac(units, places)
    }
}

/// Helper for `fixed_text` with at least one decimal place.
pub open spec fn fixed_text_frac(units: nat, places: nat) -> Seq<char>
    recommends
        places > 0,
{
    decimal_text(units / pow10(places)) + seq!['.'] + padded_digits(units % pow10(places), places)
}

/// Ten to the power `p`.
pub open spec fn pow10(p: nat) -> nat
    decreases p,
{
    if p == 0 {
        1
    } else {
        10 * pow10((p - 1) as nat)
    }
}

/// The last `width` decimal digits of `n`, most significant first, zero-padded.
pub open spec fn padded_digits(n: nat, width: nat) -> Seq<char>
    decreases width,
{
    if width == 0 {
        Seq::empty()
    } else {
        padded_digits(n / 10, (width - 1) as nat).push(digit_char(n % 10))
    }
}

/// The integer nearest to `num / den`, halfway cases going to the even neighbour.
pub open spec fn round_half_even(num: nat, den: nat) -> nat
    recommends
        den > 0,
{
    let q = num / den;
    let r = num % den;
    if 2 * r > den || (2 * r == den && q % 2 == 1) {
        q + 1
    } else {
        q
    }
}

fn digit_str(d: u128) -> (r: &'static str)
    requires
        d < 10,
    ensures
        r@ == seq![digit_char(d as nat)],
{
    proof {
        reveal_strlit("0");
        reveal_strlit("1");
        reveal_strlit("2");
        reveal_strlit("3");
        reveal_strlit("4");
        reveal_strlit("5");
        reveal_strlit("6");
        reveal_strlit("7");
        reveal_strlit("8");
        reveal_strlit("9");
    }
    if d == 0 {
        "0"
    } else if d == 1 {
        "1"
    } else if d == 2 {
        "2"
    } else if d == 3 {
        "3"
    } else if d == 4 {
        "4"
    } else if d == 5 {
        "5"
    } else if d == 6 {
        "6"
    } else if d == 7 {
        "7"
    } else if d == 8 {
        "8"
    } else {
        "9"
    }
}

/// Base-ten rendering of `n`.
pub fn decimal(n: u128) -> (r: String)
    ensures
        r@ == decimal_text(n as nat),
    decreases n,
{
    if n < 10 {
        String::from_str(digit_str(n))
    } else {
        let mut s = decimal(n / 10);
        s.append(digit_str(n % 10));
        s
    }
}

/// Appends the last `width` decimal digits of `n`, zero-padded.
fn append_padded(out: &mut String, n: u128, width: u64)
    ensures
        final(out)@ == old(out)@ + padded_digits(n as nat, width as nat),
    decreases width,
{
    if width > 0 {
        append_padded(out, n / 10, width - 1);
        out.append(digit_str(n % 10));
        proof {
            assert(padded_digits(n as nat, width as nat) == padded_digits(
                (n / 10) as nat,
                (width - 1) as nat,
            ).push(digit_char((n % 10) as nat)));
        }
    }
}

/// Ten to the power `p` as a machine integer.
pub fn pow10_u128(p: u64) -> (r: u128)
    requires
        p <= 19,
    ensures
        r as nat == pow10(p as nat),
    decreases p,
{
    if p == 0 {
        1
    } else {
        let below = pow10_u128(p - 1);
        proof {
            lemma_pow10_bound((p - 1) as nat);
        }
        assert(pow10((p - 1) as nat) <= 1_000_000_000_000_000_000) by {
            lemma_pow10_monotone((p - 1) as nat, 18);
            lemma_pow10_18();
        }
        10 * below
    }
}

proof fn lemma_pow10_bound(p: nat)
    ensures
        pow10(p) >= 1,
    decreases p,
{
    if p > 0 {
        lemma_pow10_bound((p - 1) as nat);
    }
}

proof fn lemma_pow10_monotone(a: nat, b: nat)
    requires
        a <= b,
    ensures
        pow10(a) <= pow10(b),
    decreases b,
{
    if a < b {
        lemma_pow10_monotone(a, (b - 1) as nat);
        lemma_pow10_bound((b - 1) as nat);
    }
}

proof fn lemma_pow10_18()
    ensures
        pow10(18) == 1_000_000_000_000_000_000,
{
    reveal_with_fuel(pow10, 19);
}

/// Renders `units / 10^places` with exactly `places` fractional digits.
pub fn fixed(units: u128, places: u64) -> (r: String)
    requires
        places <= 19,
    ensures
        r@ == fixed_text(units as nat, places as nat),
{
    if places == 0 {
        decimal(units)
    } else {
        let scale = pow10_u128(places);
        proof {
            lemma_pow10_bound(places as nat);
        }
        let mut s = decimal(units / scale);
        s.append(".");
        proof {
            reveal_strlit(".");
        }
        append_padded(&mut s, units % scale, places);
        s
    }
}

/// Integer division of `num` by `den`, rounded to nearest with ties to even.
pub fn rounded_div(num: u128, den: u128) -> (r: u128)
    requires
        den > 0,
    ensures
        r as nat == round_half_even(num as nat, den as nat),
{
    let q = num / den;
    let rem = num % den;
    let up = if rem > den - rem {
        true
    } else if rem == den - rem {
        q % 2 == 1
    } else {
        false
    };
    if up {
        assert(q < u128::MAX) by (nonlinear_arith)
            requires
                q == num / den,
                den > 0,
                rem == num % den,
                rem > 0 || den == 2 * rem,
        {
        }
        q + 1
    } else {
        q
    }
}

} // verus!
